//! The canonical, source-agnostic user representation and its
//! provider-facing projections.

use vstd::prelude::*;
use vstd::string::StringExecFns;
use vstd::utf8::encode_utf8;

use crate::config::{FeatureFlag, FeatureFlags};

verus! {

/// Why a record or an operation was rejected.
#[derive(Debug)]
pub enum Error {
    /// A required source attribute is absent; carries the attribute name.
    MissingAttribute(String),
    /// The status attribute is neither a decimal integer nor four bytes.
    ParseError,
    /// The provider-side target of an update or delete could not be resolved.
    UserNotFound,
}

/// A value that is either a string or a byte string.
///
/// Two values are equal when their byte content is equal, regardless of the
/// tag: a text value equals the byte value of its UTF-8 encoding.
#[derive(Debug)]
pub enum StringOrBytes {
    /// A string.
    Text(String),
    /// A byte string.
    Bytes(Vec<u8>),
}

/// The mathematical content of a `StringOrBytes` value.
pub enum ValueView {
    /// Character content of the text form.
    Text(Seq<char>),
    /// Byte content of the binary form.
    Bytes(Seq<u8>),
}

/// The byte content of a value: text is taken as its UTF-8 encoding.
pub open spec fn value_bytes(v: ValueView) -> Seq<u8> {
    match v {
        ValueView::Text(s) => encode_utf8(s),
        ValueView::Bytes(b) => b,
    }
}

/// How a value renders for the provider: text as-is, bytes as base64.
pub open spec fn value_display(v: ValueView) -> Seq<char> {
    match v {
        ValueView::Text(s) => s,
        ValueView::Bytes(b) => base64_of(b),
    }
}

impl View for StringOrBytes {
    type V = ValueView;

    open spec fn view(&self) -> ValueView {
        match self {
            StringOrBytes::Text(s) => ValueView::Text(s@),
            StringOrBytes::Bytes(b) => ValueView::Bytes(b@),
        }
    }
}

/// The base64 rendering (standard alphabet, padded) of a byte string.
pub uninterp spec fn base64_of(bytes: Seq<u8>) -> Seq<char>;

/// Relies on `base64::engine::Engine::encode` with the `STANDARD` engine:
/// the result is a function of the input bytes alone; every three input
/// bytes become four characters, padded to a multiple of four.
#[verifier::external_body]
fn base64_encode(bytes: &[u8]) -> (r: String)
    ensures
        r@ == base64_of(bytes@),
        r@.len() == 4 * ((bytes@.len() + 2) / 3),
{
    base64::Engine::encode(&base64::engine::general_purpose::STANDARD, bytes)
}

/// Byte-for-byte equality of two slices.
pub fn bytes_eq(a: &[u8], b: &[u8]) -> (r: bool)
    ensures
        r == (a@ == b@),
{
    if a.len() != b.len() {
        return false;
    }
    let n = a.len();
    let mut i: usize = 0;
    while i < n
        invariant
            n == a@.len(),
            n == b@.len(),
            0 <= i <= n,
            forall|j: int| 0 <= j < i ==> a@[j] == b@[j],
        decreases n - i,
    {
        if a[i] != b[i] {
            return false;
        }
        i = i + 1;
    }
    proof {
        assert(a@ =~= b@);
    }
    true
}

impl StringOrBytes {
    /// The byte content, with text exposed as its UTF-8 encoding.
    pub fn byte_slice(&self) -> (r: &[u8])
        ensures
            r@ == value_bytes(self@),
    {
        match self {
            StringOrBytes::Text(s) => s.as_str().as_bytes(),
            StringOrBytes::Bytes(b) => b.as_slice(),
        }
    }

    /// Render the value for the provider: text as-is, bytes as base64.
    pub fn to_display_string(&self) -> (r: String)
        ensures
            r@ == value_display(self@),
    {
        match self {
            StringOrBytes::Text(s) => s.clone(),
            StringOrBytes::Bytes(b) => base64_encode(b.as_slice()),
        }
    }
}

impl PartialEq for StringOrBytes {
    fn eq(&self, other: &Self) -> (r: bool) {
        bytes_eq(self.byte_slice(), other.byte_slice())
    }
}

impl vstd::std_specs::cmp::PartialEqSpecImpl for StringOrBytes {
    open spec fn obeys_eq_spec() -> bool {
        true
    }

    open spec fn eq_spec(&self, other: &Self) -> bool {
        value_bytes(self@) == value_bytes(other@)
    }
}

impl Clone for StringOrBytes {
    fn clone(&self) -> (r: Self)
        ensures
            r@ == self@,
    {
        match self {
            StringOrBytes::Text(s) => StringOrBytes::Text(s.clone()),
            StringOrBytes::Bytes(b) => StringOrBytes::Bytes(clone_bytes(b)),
        }
    }
}

/// Copy a byte vector element by element.
pub(crate) fn clone_bytes(v: &Vec<u8>) -> (r: Vec<u8>)
    ensures
        r@ == v@,
{
    let n = v.len();
    let mut r: Vec<u8> = Vec::new();
    let mut i: usize = 0;
    while i < n
        invariant
            n == v@.len(),
            0 <= i <= n,
            r@ == v@.take(i as int),
        decreases n - i,
    {
        r.push(v[i]);
        proof {
            assert(r@ =~= v@.take(i + 1));
        }
        i = i + 1;
    }
    proof {
        assert(v@.take(n as int) =~= v@);
    }
    r
}

impl From<String> for StringOrBytes {
    fn from(value: String) -> (r: Self) {
        StringOrBytes::Text(value)
    }
}

impl vstd::std_specs::convert::FromSpecImpl<String> for StringOrBytes {
    open spec fn obeys_from_spec() -> bool {
        true
    }

    open spec fn from_spec(value: String) -> Self {
        StringOrBytes::Text(value)
    }
}

/// Source-agnostic representation of a user.
#[derive(Debug)]
pub struct User {
    /// The user's first name.
    pub first_name: StringOrBytes,
    /// The user's last name.
    pub last_name: StringOrBytes,
    /// The user's email address; always present.
    pub email: StringOrBytes,
    /// The user's phone number, if any.
    pub phone: Option<StringOrBytes>,
    /// Whether the user is enabled.
    pub enabled: bool,
    /// The user's preferred username.
    pub preferred_username: StringOrBytes,
    /// The user's identifier in the source directory; always present.
    pub external_user_id: StringOrBytes,
}

/// The mathematical content of a `User`.
pub struct UserView {
    /// First name content.
    pub first_name: ValueView,
    /// Last name content.
    pub last_name: ValueView,
    /// Email content.
    pub email: ValueView,
    /// Phone content, if any.
    pub phone: Option<ValueView>,
    /// Whether the user is enabled.
    pub enabled: bool,
    /// Preferred username content.
    pub preferred_username: ValueView,
    /// Source identifier content.
    pub external_user_id: ValueView,
}

impl View for User {
    type V = UserView;

    open spec fn view(&self) -> UserView {
        UserView {
            first_name: self.first_name@,
            last_name: self.last_name@,
            email: self.email@,
            phone: match self.phone {
                Some(p) => Some(p@),
                None => None,
            },
            enabled: self.enabled,
            preferred_username: self.preferred_username@,
            external_user_id: self.external_user_id@,
        }
    }
}

impl Clone for User {
    fn clone(&self) -> (r: Self)
        ensures
            r@ == self@,
    {
        User {
            first_name: self.first_name.clone(),
            last_name: self.last_name.clone(),
            email: self.email.clone(),
            phone: match &self.phone {
                Some(p) => Some(p.clone()),
                None => None,
            },
            enabled: self.enabled,
            preferred_username: self.preferred_username.clone(),
            external_user_id: self.external_user_id.clone(),
        }
    }
}

impl User {
    /// Project the user into its provider-facing form, applying the
    /// verification and SSO feature flags.
    pub fn to_zitadel_user(&self, feature_flags: &FeatureFlags, idp_id: &str) -> (r: ZitadelUser)
        ensures
            r@.user_data == self@,
            r@.needs_email_verification == feature_flags@.contains(FeatureFlag::VerifyEmail),
            r@.needs_phone_verification == feature_flags@.contains(FeatureFlag::VerifyPhone),
            r@.idp_id == if feature_flags@.contains(FeatureFlag::SsoLogin) {
                Some(idp_id@)
            } else {
                None::<Seq<char>>
            },
    {
        ZitadelUser {
            user_data: self.clone(),
            needs_email_verification: feature_flags.is_enabled(FeatureFlag::VerifyEmail),
            needs_phone_verification: feature_flags.is_enabled(FeatureFlag::VerifyPhone),
            idp_id: if feature_flags.is_enabled(FeatureFlag::SsoLogin) {
                Some(idp_id.to_owned())
            } else {
                None
            },
        }
    }
}

/// A user as the identity provider should see it.
#[derive(Debug)]
pub struct ZitadelUser {
    /// Details about the user.
    pub user_data: User,
    /// Whether the user should be prompted to verify their email.
    pub needs_email_verification: bool,
    /// Whether the user should be prompted to verify their phone number.
    pub needs_phone_verification: bool,
    /// The ID of the identity provider to link with, if any.
    pub idp_id: Option<String>,
}

/// The mathematical content of a `ZitadelUser`.
pub struct ZitadelUserView {
    /// The canonical user content.
    pub user_data: UserView,
    /// Whether email verification is required.
    pub needs_email_verification: bool,
    /// Whether phone verification is required.
    pub needs_phone_verification: bool,
    /// Identity provider id content, if SSO linking is on.
    pub idp_id: Option<Seq<char>>,
}

impl View for ZitadelUser {
    type V = ZitadelUserView;

    open spec fn view(&self) -> ZitadelUserView {
        ZitadelUserView {
            user_data: self.user_data@,
            needs_email_verification: self.needs_email_verification,
            needs_phone_verification: self.needs_phone_verification,
            idp_id: match self.idp_id {
                Some(s) => Some(s@),
                None => None,
            },
        }
    }
}

impl Clone for ZitadelUser {
    fn clone(&self) -> (r: Self)
        ensures
            r@ == self@,
    {
        ZitadelUser {
            user_data: self.user_data.clone(),
            needs_email_verification: self.needs_email_verification,
            needs_phone_verification: self.needs_phone_verification,
            idp_id: match &self.idp_id {
                Some(s) => Some(s.clone()),
                None => None,
            },
        }
    }
}

/// The display name the provider stores: "last, first".
pub open spec fn display_name_spec(u: UserView) -> Seq<char> {
    value_display(u.last_name) + ", "@ + value_display(u.first_name)
}

/// The name used in logs to identify a user without leaking its details.
pub open spec fn log_name_spec(u: UserView) -> Seq<char> {
    "external_id="@ + value_display(u.external_user_id)
}

impl ZitadelUser {
    /// Get a display name for the user.
    pub fn get_display_name(&self) -> (r: String)
        ensures
            r@ == display_name_spec(self@.user_data),
    {
        let last = self.user_data.last_name.to_display_string();
        let first = self.user_data.first_name.to_display_string();
        last.concat(", ").concat(first.as_str())
    }

    /// Return the name to be used in logs to identify this user.
    pub fn log_name(&self) -> (r: String)
        ensures
            r@ == log_name_spec(self@.user_data),
    {
        let prefix = "external_id=".to_owned();
        let id = self.user_data.external_user_id.to_display_string();
        prefix.concat(id.as_str())
    }

    /// The same user with its phone number cleared; used to retry an
    /// operation the provider rejected for an invalid phone number.
    pub fn without_phone(&self) -> (r: Self)
        ensures
            r@ == (ZitadelUserView {
                user_data: UserView { phone: None, ..self@.user_data },
                ..self@
            }),
    {
        let mut r = self.clone();
        r.user_data.phone = None;
        r
    }
}

} // verus!
