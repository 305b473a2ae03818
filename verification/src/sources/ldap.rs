//! Normalization of LDAP directory records into canonical users.

use vstd::prelude::*;
use vstd::utf8::{decode_utf8, encode_utf8, valid_utf8};

use crate::user::{clone_bytes, Error, StringOrBytes, User, UserView, ValueView};
use crate::zitadel::{ChangedUser, SourceDiff, UserId, UserIdView};

verus! {

/// How an attribute is named in the source directory: either a bare name, or
/// a name together with whether the attribute's binary form is preferred.
#[derive(Debug)]
pub enum AttributeMapping {
    /// An attribute that's defined without specifying whether it is binary.
    NoBinaryOption(String),
    /// An attribute that specifies whether it is binary.
    OptionalBinary {
        /// The name of the attribute.
        name: String,
        /// Whether the attribute is binary.
        is_binary: bool,
    },
}

impl AttributeMapping {
    /// The attribute name this mapping resolves to.
    pub open spec fn name_spec(&self) -> Seq<char> {
        match self {
            AttributeMapping::NoBinaryOption(name) => name@,
            AttributeMapping::OptionalBinary { name, .. } => name@,
        }
    }

    /// Whether the binary form of the attribute is preferred.
    pub open spec fn is_binary_spec(&self) -> bool {
        match self {
            AttributeMapping::NoBinaryOption(..) => false,
            AttributeMapping::OptionalBinary { is_binary, .. } => *is_binary,
        }
    }

    /// Get the attribute name.
    pub fn get_name(self) -> (r: String)
        ensures
            r@ == self.name_spec(),
    {
        match self {
            AttributeMapping::NoBinaryOption(name) => name,
            AttributeMapping::OptionalBinary { name, .. } => name,
        }
    }

    /// Borrow the attribute name.
    pub fn name_ref(&self) -> (r: &String)
        ensures
            r@ == self.name_spec(),
    {
        match self {
            AttributeMapping::NoBinaryOption(name) => name,
            AttributeMapping::OptionalBinary { name, .. } => name,
        }
    }

    /// Whether the binary form of the attribute is preferred.
    pub fn is_binary(&self) -> (r: bool)
        ensures
            r == self.is_binary_spec(),
    {
        match self {
            AttributeMapping::NoBinaryOption(..) => false,
            AttributeMapping::OptionalBinary { is_binary, .. } => *is_binary,
        }
    }
}

impl Clone for AttributeMapping {
    fn clone(&self) -> (r: Self)
        ensures
            r.name_spec() == self.name_spec(),
            r.is_binary_spec() == self.is_binary_spec(),
    {
        match self {
            AttributeMapping::NoBinaryOption(name) => {
                AttributeMapping::NoBinaryOption(name.clone())
            },
            AttributeMapping::OptionalBinary { name, is_binary } => {
                AttributeMapping::OptionalBinary { name: name.clone(), is_binary: *is_binary }
            },
        }
    }
}

/// One record as reported by a directory search: its distinguished name, its
/// text attributes and its binary attributes, each a list of named value
/// lists with at most one entry per name.
#[derive(Debug)]
pub struct SearchRecord {
    /// The record's distinguished name.
    pub dn: String,
    /// Text attributes: name and values.
    pub attrs: Vec<(String, Vec<String>)>,
    /// Binary attributes: name and values.
    pub bin_attrs: Vec<(String, Vec<Vec<u8>>)>,
}

/// The first value of the first text attribute with the given name, if any.
pub open spec fn text_first_rec(attrs: Seq<(String, Vec<String>)>, name: Seq<char>) -> Option<
    Seq<char>,
>
    decreases attrs.len(),
{
    if attrs.len() == 0 {
        None::<Seq<char>>
    } else if attrs[0].0@ == name {
        if attrs[0].1@.len() > 0 {
            Some(attrs[0].1@[0]@)
        } else {
            None
        }
    } else {
        text_first_rec(attrs.drop_first(), name)
    }
}

/// The first value of the first binary attribute with the given name, if any.
pub open spec fn bin_first_rec(attrs: Seq<(String, Vec<Vec<u8>>)>, name: Seq<char>) -> Option<
    Seq<u8>,
>
    decreases attrs.len(),
{
    if attrs.len() == 0 {
        None::<Seq<u8>>
    } else if attrs[0].0@ == name {
        if attrs[0].1@.len() > 0 {
            Some(attrs[0].1@[0]@)
        } else {
            None
        }
    } else {
        bin_first_rec(attrs.drop_first(), name)
    }
}

impl SearchRecord {
    /// The first text value of the named attribute.
    pub open spec fn text_first(&self, name: Seq<char>) -> Option<Seq<char>> {
        text_first_rec(self.attrs@, name)
    }

    /// The first binary value of the named attribute.
    pub open spec fn bin_first(&self, name: Seq<char>) -> Option<Seq<u8>> {
        bin_first_rec(self.bin_attrs@, name)
    }

    /// What resolving the named attribute yields, if anything.
    ///
    /// Without the binary preference the text form decides. With it, the
    /// binary form is preferred; a text form is accepted as a fallback and
    /// re-encoded as its raw UTF-8 bytes, since directories expose binary
    /// attributes that happen to be valid UTF-8 in text form only.
    pub open spec fn resolve_view(&self, name: Seq<char>, is_binary: bool) -> Option<ValueView> {
        if !is_binary {
            match self.text_first(name) {
                Some(s) => Some(ValueView::Text(s)),
                None => None,
            }
        } else {
            match self.bin_first(name) {
                Some(b) => Some(ValueView::Bytes(b)),
                None => match self.text_first(name) {
                    Some(s) => Some(ValueView::Bytes(encode_utf8(s))),
                    None => None,
                },
            }
        }
    }

    /// Look up the first text value of the named attribute.
    pub fn attr_first(&self, name: &String) -> (r: Option<&String>)
        ensures
            match r {
                Some(s) => self.text_first(name@) == Some(s@),
                None => self.text_first(name@) is None,
            },
    {
        let n = self.attrs.len();
        let mut i: usize = 0;
        proof {
            assert(self.attrs@.skip(0) =~= self.attrs@);
        }
        while i < n
            invariant
                n == self.attrs@.len(),
                0 <= i <= n,
                text_first_rec(self.attrs@, name@) == text_first_rec(
                    self.attrs@.skip(i as int),
                    name@,
                ),
            decreases n - i,
        {
            proof {
                assert(self.attrs@.skip(i as int)[0] == self.attrs@[i as int]);
                assert(self.attrs@.skip(i as int).drop_first() =~= self.attrs@.skip(i + 1));
            }
            let pair = &self.attrs[i];
            if pair.0 == *name {
                if pair.1.len() > 0 {
                    return Some(&pair.1[0]);
                } else {
                    return None;
                }
            }
            i = i + 1;
        }
        proof {
            assert(self.attrs@.skip(n as int) =~= Seq::<(String, Vec<String>)>::empty());
        }
        None
    }

    /// Look up the first binary value of the named attribute.
    pub fn bin_attr_first(&self, name: &String) -> (r: Option<&Vec<u8>>)
        ensures
            match r {
                Some(b) => self.bin_first(name@) == Some(b@),
                None => self.bin_first(name@) is None,
            },
    {
        let n = self.bin_attrs.len();
        let mut i: usize = 0;
        proof {
            assert(self.bin_attrs@.skip(0) =~= self.bin_attrs@);
        }
        while i < n
            invariant
                n == self.bin_attrs@.len(),
                0 <= i <= n,
                bin_first_rec(self.bin_attrs@, name@) == bin_first_rec(
                    self.bin_attrs@.skip(i as int),
                    name@,
                ),
            decreases n - i,
        {
            proof {
                assert(self.bin_attrs@.skip(i as int)[0] == self.bin_attrs@[i as int]);
                assert(self.bin_attrs@.skip(i as int).drop_first() =~= self.bin_attrs@.skip(i + 1));
            }
            let pair = &self.bin_attrs[i];
            if pair.0 == *name {
                if pair.1.len() > 0 {
                    return Some(&pair.1[0]);
                } else {
                    return None;
                }
            }
            i = i + 1;
        }
        proof {
            assert(self.bin_attrs@.skip(n as int) =~= Seq::<(String, Vec<Vec<u8>>)>::empty());
        }
        None
    }
}

/// Read an attribute from the entry. Fails with `MissingAttribute` exactly
/// when the mapping resolves to nothing.
pub fn read_search_entry(entry: &SearchRecord, attribute: &AttributeMapping) -> (r: Result<
    StringOrBytes,
    Error,
>)
    ensures
        match r {
            Ok(v) => entry.resolve_view(attribute.name_spec(), attribute.is_binary_spec())
                == Some(v@),
            Err(e) => entry.resolve_view(attribute.name_spec(), attribute.is_binary_spec()) is None
                && (e matches Error::MissingAttribute(n) && n@ == attribute.name_spec()),
        },
{
    let name = attribute.name_ref();
    if attribute.is_binary() {
        match entry.bin_attr_first(name) {
            Some(b) => Ok(StringOrBytes::Bytes(clone_bytes(b))),
            None => {
                // Attributes that encode as valid UTF-8 show up in the text
                // form only; take their raw bytes.
                match entry.attr_first(name) {
                    Some(s) => Ok(StringOrBytes::Bytes(s.as_str().as_bytes_vec())),
                    None => Err(Error::MissingAttribute(name.clone())),
                }
            },
        }
    } else {
        match entry.attr_first(name) {
            Some(s) => Ok(StringOrBytes::Text(s.clone())),
            None => Err(Error::MissingAttribute(name.clone())),
        }
    }
}

/// Whether a byte is an ASCII decimal digit.
pub open spec fn dec_digit(b: u8) -> bool {
    48 <= b <= 57
}

/// Whether every byte is an ASCII decimal digit.
pub open spec fn all_digits(s: Seq<u8>) -> bool {
    forall|i: int| 0 <= i < s.len() ==> dec_digit(#[trigger] s[i])
}

/// The value of a string of decimal digits.
pub open spec fn digits_value(s: Seq<u8>) -> int
    decreases s.len(),
{
    if s.len() == 0 {
        0
    } else {
        digits_value(s.drop_last()) * 10 + (s.last() - 48)
    }
}

proof fn lemma_digits_value_nonneg(s: Seq<u8>)
    requires
        all_digits(s),
    ensures
        digits_value(s) >= 0,
    decreases s.len(),
{
    if s.len() > 0 {
        assert forall|i: int| 0 <= i < s.drop_last().len() implies dec_digit(
            #[trigger] s.drop_last()[i],
        ) by {
            assert(s.drop_last()[i] == s[i]);
        }
        lemma_digits_value_nonneg(s.drop_last());
    }
}

/// What parsing a decimal 32-bit integer from bytes yields: an optional
/// sign, then at least one digit, and a value within the `i32` range.
pub open spec fn parse_i32_spec(s: Seq<u8>) -> Option<int> {
    let neg = s.len() > 0 && s[0] == 45;
    let ds = if s.len() > 0 && (s[0] == 43 || s[0] == 45) {
        s.drop_first()
    } else {
        s
    };
    if ds.len() > 0 && all_digits(ds) {
        let v = if neg {
            -digits_value(ds)
        } else {
            digits_value(ds)
        };
        if i32::MIN <= v <= i32::MAX {
            Some(v)
        } else {
            None
        }
    } else {
        None
    }
}

/// Parse a decimal 32-bit integer, as the status attribute's text form is
/// interpreted.
pub fn parse_i32(s: &[u8]) -> (r: Option<i32>)
    ensures
        match r {
            Some(v) => parse_i32_spec(s@) == Some(v as int),
            None => parse_i32_spec(s@) is None,
        },
{
    let n = s.len();
    let mut neg = false;
    let mut start: usize = 0;
    if n > 0 && s[0] == 43 {
        // '+'
        start = 1;
    } else if n > 0 && s[0] == 45 {
        // '-'
        neg = true;
        start = 1;
    }
    proof {
        if n > 0 && (s@[0] == 43 || s@[0] == 45) {
            assert(s@.drop_first() =~= s@.skip(1));
        } else {
            assert(s@.skip(0) =~= s@);
        }
    }
    if start >= n {
        return None;
    }
    let ghost ds = s@.skip(start as int);

    let mut acc: u64 = 0;
    let mut i: usize = start;
    while i < n
        invariant
            start <= i <= n,
            n == s@.len(),
            start <= 1,
            ds == s@.skip(start as int),
            (start == 1) == (n > 0 && (s@[0] == 43 || s@[0] == 45)),
            all_digits(s@.subrange(start as int, i as int)),
            0 <= acc <= 0x8000_0001,
            digits_value(s@.subrange(start as int, i as int)) <= 0x8000_0000 ==> acc
                == digits_value(s@.subrange(start as int, i as int)),
            digits_value(s@.subrange(start as int, i as int)) > 0x8000_0000 ==> acc == 0x8000_0001,
        decreases n - i,
    {
        let b = s[i];
        if b < 48 || b > 57 {
            proof {
                if start == 1 {
                    assert(s@.drop_first() =~= s@.skip(1));
                } else {
                    assert(s@.skip(0) =~= s@);
                }
                assert(ds[i - start] == s@[i as int]);
                assert(!dec_digit(ds[i - start]));
            }
            return None;
        }
        proof {
            let sub = s@.subrange(start as int, i as int);
            let sub2 = s@.subrange(start as int, i + 1);
            assert(sub2.drop_last() =~= sub);
            assert(sub2.last() == s@[i as int]);
            lemma_digits_value_nonneg(sub);
            assert forall|k: int| 0 <= k < sub2.len() implies dec_digit(#[trigger] sub2[k]) by {
                if k < sub.len() {
                    assert(sub2[k] == sub[k]);
                }
            }
        }
        if acc <= 0x8000_0000 {
            acc = acc * 10 + ((b - 48) as u64);
            if acc > 0x8000_0000 {
                acc = 0x8000_0001;
            }
        }
        i = i + 1;
    }
    proof {
        assert(s@.subrange(start as int, n as int) =~= ds);
    }
    if neg {
        if acc <= 0x8000_0000 {
            let v: i64 = -(acc as i64);
            Some(v as i32)
        } else {
            None
        }
    } else {
        if acc <= 0x7FFF_FFFF {
            Some(acc as i32)
        } else {
            None
        }
    }
}

/// The unsigned value of four big-endian bytes.
pub open spec fn be_u32(b: Seq<u8>) -> int {
    b[0] * 0x100_0000 + b[1] * 0x1_0000 + b[2] * 0x100 + b[3]
}

/// The signed 32-bit value of four big-endian bytes.
pub open spec fn i32_from_be_spec(b: Seq<u8>) -> int {
    if be_u32(b) < 0x8000_0000 {
        be_u32(b)
    } else {
        be_u32(b) - 0x1_0000_0000
    }
}

/// Decode a signed 32-bit integer from four big-endian bytes, as the status
/// attribute's binary form is interpreted.
pub fn i32_from_be(b: &Vec<u8>) -> (r: i32)
    requires
        b@.len() == 4,
    ensures
        r as int == i32_from_be_spec(b@),
{
    let b0 = b[0];
    let b1 = b[1];
    let b2 = b[2];
    let b3 = b[3];
    if b0 < 128 {
        (b0 as i32) * 0x100_0000 + (b1 as i32) * 0x1_0000 + (b2 as i32) * 0x100 + (b3 as i32)
    } else {
        let u: i64 = (b0 as i64) * 0x100_0000 + (b1 as i64) * 0x1_0000 + (b2 as i64) * 0x100 + (
        b3 as i64);
        let v: i64 = u - 0x1_0000_0000;
        v as i32
    }
}

/// The status flag a resolved status attribute encodes: its text form as a
/// decimal integer, its binary form as four big-endian bytes.
pub open spec fn status_value(v: ValueView) -> Option<int> {
    match v {
        ValueView::Text(s) => parse_i32_spec(encode_utf8(s)),
        ValueView::Bytes(b) => if b.len() == 4 {
            Some(i32_from_be_spec(b))
        } else {
            None
        },
    }
}

/// Interpret a resolved status attribute as a 32-bit integer.
pub fn status_to_int(status: &StringOrBytes) -> (r: Result<i32, Error>)
    ensures
        match r {
            Ok(v) => status_value(status@) == Some(v as int),
            Err(e) => status_value(status@) is None && e is ParseError,
        },
{
    match status {
        StringOrBytes::Text(s) => match parse_i32(s.as_str().as_bytes()) {
            Some(v) => Ok(v),
            None => Err(Error::ParseError),
        },
        StringOrBytes::Bytes(b) => {
            if b.len() == 4 {
                Ok(i32_from_be(b))
            } else {
                Err(Error::ParseError)
            }
        },
    }
}

/// Whether a status flag leaves the account enabled: no disable bitmask
/// shares a bit with it.
pub open spec fn enabled_for(status: int, masks: Seq<i32>) -> bool {
    forall|i: int| 0 <= i < masks.len() ==> (#[trigger] masks[i]) & (status as i32) == 0
}

/// Compute whether a status flag leaves the account enabled.
pub fn compute_enabled(status: i32, masks: &Vec<i32>) -> (r: bool)
    ensures
        r == enabled_for(status as int, masks@),
{
    let n = masks.len();
    let mut i: usize = 0;
    while i < n
        invariant
            n == masks@.len(),
            0 <= i <= n,
            forall|j: int| 0 <= j < i ==> (#[trigger] masks@[j]) & status == 0,
        decreases n - i,
    {
        if masks[i] & status != 0 {
            return false;
        }
        i = i + 1;
    }
    true
}

/// A mapping from the mostly free-form LDAP attributes to the attribute
/// names the canonical user is built from.
#[derive(Debug)]
pub struct LdapAttributesMapping {
    /// Attribute for the user's first name.
    pub first_name: AttributeMapping,
    /// Attribute for the user's last name.
    pub last_name: AttributeMapping,
    /// Attribute for the user's preferred username.
    pub preferred_username: AttributeMapping,
    /// Attribute for the user's email address.
    pub email: AttributeMapping,
    /// Attribute for the user's phone number.
    pub phone: AttributeMapping,
    /// Attribute for the user's unique ID.
    pub user_id: AttributeMapping,
    /// This attribute shows the account status as a 32-bit flag value.
    pub status: AttributeMapping,
    /// Bitmasks that mark an account as disabled.
    pub disable_bitmasks: Vec<i32>,
    /// Attribute for the time of last modification, if tracked.
    pub last_modified: Option<AttributeMapping>,
}

/// What normalizing one record yields.
pub enum NormalizeOutcome {
    /// A canonical user.
    Normalized(UserView),
    /// A required attribute is absent; carries its name.
    Missing(Seq<char>),
    /// The status attribute is present but not a well-formed flag.
    BadStatus,
}

/// What a record resolves to under a mapping.
pub open spec fn resolved(entry: &SearchRecord, m: &AttributeMapping) -> Option<ValueView> {
    entry.resolve_view(m.name_spec(), m.is_binary_spec())
}

/// What normalizing a record under a mapping yields: the status attribute
/// decides the enabled flag against the disable bitmasks; first name, last
/// name, preferred username, email and user id are required; phone is
/// best-effort.
pub open spec fn normalize_spec(entry: &SearchRecord, m: &LdapAttributesMapping) -> NormalizeOutcome {
    match resolved(entry, &m.status) {
        None => NormalizeOutcome::Missing(m.status.name_spec()),
        Some(sv) => match status_value(sv) {
            None => NormalizeOutcome::BadStatus,
            Some(st) => match resolved(entry, &m.first_name) {
                None => NormalizeOutcome::Missing(m.first_name.name_spec()),
                Some(first_name) => match resolved(entry, &m.last_name) {
                    None => NormalizeOutcome::Missing(m.last_name.name_spec()),
                    Some(last_name) => match resolved(entry, &m.preferred_username) {
                        None => NormalizeOutcome::Missing(m.preferred_username.name_spec()),
                        Some(preferred_username) => match resolved(entry, &m.email) {
                            None => NormalizeOutcome::Missing(m.email.name_spec()),
                            Some(email) => match resolved(entry, &m.user_id) {
                                None => NormalizeOutcome::Missing(m.user_id.name_spec()),
                                Some(external_user_id) => NormalizeOutcome::Normalized(
                                    UserView {
                                        first_name,
                                        last_name,
                                        preferred_username,
                                        email,
                                        external_user_id,
                                        phone: resolved(entry, &m.phone),
                                        enabled: enabled_for(st, m.disable_bitmasks@),
                                    },
                                ),
                            },
                        },
                    },
                },
            },
        },
    }
}

/// Construct a canonical user from a directory record.
///
/// A missing required attribute is a hard error, never a default; a
/// malformed status flag likewise; a missing phone number is not an error.
pub fn parse_user(entry: &SearchRecord, attributes: &LdapAttributesMapping) -> (r: Result<
    User,
    Error,
>)
    ensures
        match r {
            Ok(u) => normalize_spec(entry, attributes) == NormalizeOutcome::Normalized(u@),
            Err(e) => match e {
                Error::MissingAttribute(n) => normalize_spec(entry, attributes)
                    == NormalizeOutcome::Missing(n@),
                Error::ParseError => normalize_spec(entry, attributes)
                    == NormalizeOutcome::BadStatus,
                _ => false,
            },
        },
{
    let status = read_search_entry(entry, &attributes.status)?;
    let status_as_int = status_to_int(&status)?;
    let enabled = compute_enabled(status_as_int, &attributes.disable_bitmasks);

    let first_name = read_search_entry(entry, &attributes.first_name)?;
    let last_name = read_search_entry(entry, &attributes.last_name)?;
    let preferred_username = read_search_entry(entry, &attributes.preferred_username)?;
    let email = read_search_entry(entry, &attributes.email)?;
    let ldap_user_id = read_search_entry(entry, &attributes.user_id)?;
    let phone = match read_search_entry(entry, &attributes.phone) {
        Ok(p) => Some(p),
        Err(..) => None,
    };

    Ok(User {
        first_name,
        last_name,
        preferred_username,
        email,
        external_user_id: ldap_user_id,
        phone,
        enabled,
    })
}

/// Whether a record is missing one of the attributes a canonical user
/// requires: status, first name, last name, preferred username, email or
/// user id. The phone is not required.
pub open spec fn some_required_missing(entry: &SearchRecord, m: &LdapAttributesMapping) -> bool {
    ||| resolved(entry, &m.status) is None
    ||| resolved(entry, &m.first_name) is None
    ||| resolved(entry, &m.last_name) is None
    ||| resolved(entry, &m.preferred_username) is None
    ||| resolved(entry, &m.email) is None
    ||| resolved(entry, &m.user_id) is None
}

/// Whether the record's status attribute resolves and parses as a flag.
pub open spec fn status_parses(entry: &SearchRecord, m: &LdapAttributesMapping) -> bool {
    match resolved(entry, &m.status) {
        Some(v) => status_value(v) is Some,
        None => false,
    }
}

/// A record that is missing a required attribute never normalizes to a user,
/// so it can reach no bucket; and unless the failure is preempted by a
/// malformed status flag, it is reported as `MissingAttribute`.
pub proof fn lemma_missing_required_attribute_rejected(
    entry: &SearchRecord,
    m: &LdapAttributesMapping,
)
    requires
        some_required_missing(entry, m),
    ensures
        !(normalize_spec(entry, m) is Normalized),
        resolved(entry, &m.status) is None || status_parses(entry, m) ==> normalize_spec(entry, m)
            is Missing,
{
}

/// A binary attribute value round-trips byte-for-byte through the resolver:
/// bytes stored in binary form come back unchanged, and bytes that the
/// directory exposes in text form (because they are valid UTF-8) come back
/// as exactly the encoding of that text, which decodes to it again.
pub proof fn lemma_binary_attribute_round_trip(entry: &SearchRecord, name: Seq<char>)
    ensures
        entry.bin_first(name) matches Some(b) ==> entry.resolve_view(name, true) == Some(
            ValueView::Bytes(b),
        ),
        entry.bin_first(name) is None && entry.text_first(name) is Some ==> ({
            let s = entry.text_first(name).unwrap();
            &&& entry.resolve_view(name, true) == Some(ValueView::Bytes(encode_utf8(s)))
            &&& valid_utf8(encode_utf8(s))
            &&& decode_utf8(encode_utf8(s)) == s
        }),
{
    if entry.bin_first(name) is None && entry.text_first(name) is Some {
        let s = entry.text_first(name).unwrap();
        vstd::utf8::encode_utf8_valid_utf8(s);
        vstd::utf8::encode_utf8_decode_utf8(s);
    }
}

/// One change reported by the directory poller: a record seen for the first
/// time, a record seen in two states, or a removed record's id bytes.
#[derive(Debug)]
pub enum EntryEvent {
    /// A record seen for the first time.
    New(SearchRecord),
    /// A record seen in two states.
    Changed {
        /// The old state.
        old: SearchRecord,
        /// The new state.
        new: SearchRecord,
    },
    /// The id bytes of a removed record.
    Removed(Vec<u8>),
}

/// What folding the poller's events into user changes yields.
pub enum CollectOutcome {
    /// Every event normalized: the added users, the changed pairs and the
    /// removed ids, each in event order.
    Collected {
        /// Users seen for the first time.
        added: Seq<UserView>,
        /// Old/new pairs of users seen in two states.
        changed: Seq<(UserView, UserView)>,
        /// Identities of removed users.
        removed: Seq<UserIdView>,
    },
    /// A record is missing the named required attribute.
    MissingAttr(Seq<char>),
    /// A record's status attribute is not a well-formed flag.
    BadStatusFlag,
    /// A removed record's id bytes are not valid UTF-8.
    BadRemovedId,
}

/// Fold the poller's events in order; the first record that fails to
/// normalize decides the outcome.
pub open spec fn collect_spec(events: Seq<EntryEvent>, m: &LdapAttributesMapping) -> CollectOutcome
    decreases events.len(),
{
    if events.len() == 0 {
        CollectOutcome::Collected {
            added: Seq::<UserView>::empty(),
            changed: Seq::<(UserView, UserView)>::empty(),
            removed: Seq::<UserIdView>::empty(),
        }
    } else {
        match collect_spec(events.drop_last(), m) {
            CollectOutcome::Collected { added, changed, removed } => match events.last() {
                EntryEvent::New(entry) => match normalize_spec(&entry, m) {
                    NormalizeOutcome::Normalized(u) => CollectOutcome::Collected {
                        added: added.push(u),
                        changed,
                        removed,
                    },
                    NormalizeOutcome::Missing(n) => CollectOutcome::MissingAttr(n),
                    NormalizeOutcome::BadStatus => CollectOutcome::BadStatusFlag,
                },
                EntryEvent::Changed { old, new } => match normalize_spec(&old, m) {
                    NormalizeOutcome::Normalized(o) => match normalize_spec(&new, m) {
                        NormalizeOutcome::Normalized(nu) => CollectOutcome::Collected {
                            added,
                            changed: changed.push((o, nu)),
                            removed,
                        },
                        NormalizeOutcome::Missing(n) => CollectOutcome::MissingAttr(n),
                        NormalizeOutcome::BadStatus => CollectOutcome::BadStatusFlag,
                    },
                    NormalizeOutcome::Missing(n) => CollectOutcome::MissingAttr(n),
                    NormalizeOutcome::BadStatus => CollectOutcome::BadStatusFlag,
                },
                EntryEvent::Removed(bytes) => if valid_utf8(bytes@) {
                    CollectOutcome::Collected {
                        added,
                        changed,
                        removed: removed.push(UserIdView::Nick(decode_utf8(bytes@))),
                    }
                } else {
                    CollectOutcome::BadRemovedId
                },
            },
            fail => fail,
        }
    }
}

/// Once an event has failed, the outcome of the whole fold is that failure.
proof fn lemma_collect_fail_propagates(events: Seq<EntryEvent>, m: &LdapAttributesMapping, k: int)
    requires
        0 <= k <= events.len(),
        !(collect_spec(events.take(k), m) is Collected),
    ensures
        collect_spec(events, m) == collect_spec(events.take(k), m),
    decreases events.len() - k,
{
    if k < events.len() {
        assert(events.take(k + 1).drop_last() =~= events.take(k));
        lemma_collect_fail_propagates(events, m, k + 1);
    } else {
        assert(events.take(k) =~= events);
    }
}

/// Relies on `String::from_utf8`: it succeeds exactly on valid UTF-8 input
/// and returns the string those bytes encode.
#[verifier::external_body]
fn string_from_utf8(bytes: Vec<u8>) -> (r: Option<String>)
    ensures
        match r {
            Some(s) => valid_utf8(bytes@) && s@ == decode_utf8(bytes@),
            None => !valid_utf8(bytes@),
        },
{
    String::from_utf8(bytes).ok()
}

/// Fold the poller's events into added users, changed pairs and removed
/// identities, normalizing each record; the first record that fails to
/// normalize fails the whole fold, and the source reports nothing.
pub fn get_user_changes(events: &Vec<EntryEvent>, attributes: &LdapAttributesMapping) -> (r: Result<
    (Vec<User>, Vec<(User, User)>, Vec<UserId>),
    Error,
>)
    ensures
        match r {
            Ok(out) => ({
                &&& collect_spec(events@, attributes) matches CollectOutcome::Collected {
                    added,
                    changed,
                    removed,
                }
                &&& out.0@.len() == added.len()
                &&& forall|i: int| 0 <= i < added.len() ==> out.0@[i]@ == added[i]
                &&& out.1@.len() == changed.len()
                &&& forall|i: int|
                    0 <= i < changed.len() ==> (#[trigger] out.1@[i].0)@ == changed[i].0
                        && out.1@[i].1@ == changed[i].1
                &&& out.2@.len() == removed.len()
                &&& forall|i: int| 0 <= i < removed.len() ==> out.2@[i]@ == removed[i]
            }),
            Err(e) => match e {
                Error::MissingAttribute(n) => collect_spec(events@, attributes)
                    == CollectOutcome::MissingAttr(n@),
                Error::ParseError => collect_spec(events@, attributes)
                    == CollectOutcome::BadStatusFlag || collect_spec(events@, attributes)
                    == CollectOutcome::BadRemovedId,
                _ => false,
            },
        },
{
    let n = events.len();
    let mut added: Vec<User> = Vec::new();
    let mut changed: Vec<(User, User)> = Vec::new();
    let mut removed: Vec<UserId> = Vec::new();
    let mut i: usize = 0;
    while i < n
        invariant
            n == events@.len(),
            0 <= i <= n,
            ({
                &&& collect_spec(events@.take(i as int), attributes)
                    matches CollectOutcome::Collected { added: a, changed: c, removed: rm }
                &&& added@.len() == a.len()
                &&& forall|k: int| 0 <= k < a.len() ==> added@[k]@ == a[k]
                &&& changed@.len() == c.len()
                &&& forall|k: int|
                    0 <= k < c.len() ==> (#[trigger] changed@[k].0)@ == c[k].0 && changed@[k].1@
                        == c[k].1
                &&& removed@.len() == rm.len()
                &&& forall|k: int| 0 <= k < rm.len() ==> removed@[k]@ == rm[k]
            }),
        decreases n - i,
    {
        proof {
            assert(events@.take(i + 1).drop_last() =~= events@.take(i as int));
        }
        let ghost prefix_plus = events@.take(i + 1);
        match &events[i] {
            EntryEvent::New(entry) => {
                match parse_user(entry, attributes) {
                    Ok(u) => {
                        added.push(u);
                    },
                    Err(e) => {
                        proof {
                            lemma_collect_fail_propagates(events@, attributes, i + 1);
                        }
                        return Err(e);
                    },
                }
            },
            EntryEvent::Changed { old, new } => {
                let old_user = match parse_user(old, attributes) {
                    Ok(u) => u,
                    Err(e) => {
                        proof {
                            lemma_collect_fail_propagates(events@, attributes, i + 1);
                        }
                        return Err(e);
                    },
                };
                let new_user = match parse_user(new, attributes) {
                    Ok(u) => u,
                    Err(e) => {
                        proof {
                            lemma_collect_fail_propagates(events@, attributes, i + 1);
                        }
                        return Err(e);
                    },
                };
                changed.push((old_user, new_user));
            },
            EntryEvent::Removed(bytes) => {
                match string_from_utf8(clone_bytes(bytes)) {
                    Some(s) => {
                        removed.push(UserId::Nick(s));
                    },
                    None => {
                        proof {
                            lemma_collect_fail_propagates(events@, attributes, i + 1);
                        }
                        return Err(Error::ParseError);
                    },
                }
            },
        }
        i = i + 1;
    }
    proof {
        assert(events@.take(n as int) =~= events@);
    }
    Ok((added, changed, removed))
}

/// Shape the folded user changes into a source diff.
pub fn changes_to_diff(added: Vec<User>, changed: Vec<(User, User)>, removed: Vec<UserId>) -> (d:
    SourceDiff)
    ensures
        d.new_users@ == added@,
        d.changed_users@.len() == changed@.len(),
        forall|i: int|
            0 <= i < changed@.len() ==> (#[trigger] d.changed_users@[i])@.old == changed@[i].0@
                && d.changed_users@[i]@.new == changed@[i].1@,
        d.deleted_user_ids@ == removed@,
{
    let n = changed.len();
    let mut changed_users: Vec<ChangedUser> = Vec::new();
    let mut i: usize = 0;
    while i < n
        invariant
            n == changed@.len(),
            0 <= i <= n,
            changed_users@.len() == i,
            forall|k: int|
                0 <= k < i ==> (#[trigger] changed_users@[k])@.old == changed@[k].0@
                    && changed_users@[k]@.new == changed@[k].1@,
        decreases n - i,
    {
        let pair = &changed[i];
        changed_users.push(ChangedUser { old: pair.0.clone(), new: pair.1.clone() });
        i = i + 1;
    }
    SourceDiff { new_users: added, changed_users, deleted_user_ids: removed }
}

/// The LDAP TLS configuration.
#[derive(Debug, Clone)]
pub struct LdapTlsConfig {
    /// Path to the client key, if the server verifies client certificates.
    pub client_key: Option<String>,
    /// Path to the client certificate, if the server verifies client
    /// certificates.
    pub client_certificate: Option<String>,
    /// Path to the server certificate; without one, the host's certificate
    /// authorities verify the server.
    pub server_certificate: Option<String>,
    /// Whether to skip verifying the server's certificates. Meant for test
    /// environments only.
    pub danger_disable_tls_verify: bool,
    /// Whether to connect without TLS and upgrade the connection with a
    /// StartTLS message. A TLS URL is preferable.
    pub danger_use_start_tls: bool,
}

} // verus!
