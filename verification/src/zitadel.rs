//! Classification of source diffs and planning of the provider calls that
//! apply them.

use vstd::prelude::*;
use vstd::utf8::encode_utf8;

use crate::user::{
    display_name_spec, value_bytes, value_display, Error, User, UserView, ValueView, ZitadelUser,
    ZitadelUserView,
};

verus! {

/// The different ways to identify a user at the provider.
#[derive(Debug)]
pub enum UserId {
    /// The login name, which is the email address.
    Login(String),
    /// The nick name, which is the source directory id.
    Nick(String),
    /// The provider's own internal id.
    ZitadelId(String),
}

/// The mathematical content of a `UserId`.
pub enum UserIdView {
    /// Login name content.
    Login(Seq<char>),
    /// Nick name content.
    Nick(Seq<char>),
    /// Provider id content.
    ZitadelId(Seq<char>),
}

impl View for UserId {
    type V = UserIdView;

    open spec fn view(&self) -> UserIdView {
        match self {
            UserId::Login(s) => UserIdView::Login(s@),
            UserId::Nick(s) => UserIdView::Nick(s@),
            UserId::ZitadelId(s) => UserIdView::ZitadelId(s@),
        }
    }
}

/// A user observed by a source in two states.
#[derive(Debug)]
pub struct ChangedUser {
    /// The old state.
    pub old: User,
    /// The new state.
    pub new: User,
}

/// The mathematical content of a `ChangedUser`.
pub struct ChangedUserView {
    /// The old state.
    pub old: UserView,
    /// The new state.
    pub new: UserView,
}

impl View for ChangedUser {
    type V = ChangedUserView;

    open spec fn view(&self) -> ChangedUserView {
        ChangedUserView { old: self.old@, new: self.new@ }
    }
}

/// The difference between a source and the provider, for one sync pass.
#[derive(Debug)]
pub struct SourceDiff {
    /// New users.
    pub new_users: Vec<User>,
    /// Changed users.
    pub changed_users: Vec<ChangedUser>,
    /// Deleted user IDs.
    pub deleted_user_ids: Vec<UserId>,
}

/// A changed user that moved from enabled to disabled.
pub open spec fn disable_transition(c: ChangedUserView) -> bool {
    c.old.enabled && !c.new.enabled
}

/// A changed user that moved from disabled to enabled.
pub open spec fn enable_transition(c: ChangedUserView) -> bool {
    !c.old.enabled && c.new.enabled
}

/// A changed user that stayed enabled and may need field updates.
pub open spec fn update_transition(c: ChangedUserView) -> bool {
    c.old.enabled && c.new.enabled
}

/// The latest states of the users that moved to disabled, in order.
pub open spec fn disabled_users(s: Seq<ChangedUser>) -> Seq<UserView>
    decreases s.len(),
{
    if s.len() == 0 {
        Seq::<UserView>::empty()
    } else {
        let rest = disabled_users(s.drop_last());
        if disable_transition(s.last()@) {
            rest.push(s.last()@.new)
        } else {
            rest
        }
    }
}

/// The latest states of the users that moved to enabled, in order.
pub open spec fn enabled_users(s: Seq<ChangedUser>) -> Seq<UserView>
    decreases s.len(),
{
    if s.len() == 0 {
        Seq::<UserView>::empty()
    } else {
        let rest = enabled_users(s.drop_last());
        if enable_transition(s.last()@) {
            rest.push(s.last()@.new)
        } else {
            rest
        }
    }
}

/// The old/new pairs that stayed enabled, in order.
pub open spec fn updated_pairs(s: Seq<ChangedUser>) -> Seq<ChangedUserView>
    decreases s.len(),
{
    if s.len() == 0 {
        Seq::<ChangedUserView>::empty()
    } else {
        let rest = updated_pairs(s.drop_last());
        if update_transition(s.last()@) {
            rest.push(s.last()@)
        } else {
            rest
        }
    }
}

/// The new users that start enabled; users that start disabled are dropped
/// before the provider ever learns of them.
pub open spec fn creatable_users(s: Seq<User>) -> Seq<UserView>
    decreases s.len(),
{
    if s.len() == 0 {
        Seq::<UserView>::empty()
    } else {
        let rest = creatable_users(s.drop_last());
        if s.last()@.enabled {
            rest.push(s.last()@)
        } else {
            rest
        }
    }
}

/// A source diff partitioned into the operation buckets.
#[derive(Debug)]
pub struct ClassifiedUsers {
    /// Users to create, in source order.
    pub create: Vec<User>,
    /// Latest states of users to disable, in source order.
    pub disable: Vec<User>,
    /// Latest states of users to re-create after being re-enabled.
    pub enable: Vec<User>,
    /// Old/new pairs to diff field by field.
    pub update: Vec<ChangedUser>,
    /// Identities of users to delete, passed through unchanged.
    pub delete: Vec<UserId>,
}

/// Partition a source diff into create/disable/enable/update/delete buckets
/// according to the enabled-state transitions.
///
/// A user that was disabled and stays disabled needs no operation and lands
/// in no bucket; a new user that starts disabled is dropped likewise.
pub fn classify(diff: SourceDiff) -> (r: ClassifiedUsers)
    ensures
        ({
            let c = creatable_users(diff.new_users@);
            r.create@.len() == c.len() && forall|i: int|
                0 <= i < c.len() ==> r.create@[i]@ == c[i]
        }),
        ({
            let d = disabled_users(diff.changed_users@);
            r.disable@.len() == d.len() && forall|i: int|
                0 <= i < d.len() ==> r.disable@[i]@ == d[i]
        }),
        ({
            let e = enabled_users(diff.changed_users@);
            r.enable@.len() == e.len() && forall|i: int|
                0 <= i < e.len() ==> r.enable@[i]@ == e[i]
        }),
        ({
            let u = updated_pairs(diff.changed_users@);
            r.update@.len() == u.len() && forall|i: int|
                0 <= i < u.len() ==> r.update@[i]@ == u[i]
        }),
        r.delete@ == diff.deleted_user_ids@,
{
    let mut create: Vec<User> = Vec::new();
    let mut disable: Vec<User> = Vec::new();
    let mut enable: Vec<User> = Vec::new();
    let mut update: Vec<ChangedUser> = Vec::new();

    let new_users = diff.new_users;
    let changed_users = diff.changed_users;

    let n = new_users.len();
    let mut i: usize = 0;
    while i < n
        invariant
            n == new_users@.len(),
            0 <= i <= n,
            ({
                let c = creatable_users(new_users@.take(i as int));
                create@.len() == c.len() && forall|k: int|
                    0 <= k < c.len() ==> create@[k]@ == c[k]
            }),
        decreases n - i,
    {
        proof {
            assert(new_users@.take(i + 1).drop_last() =~= new_users@.take(i as int));
        }
        let u = &new_users[i];
        if u.enabled {
            create.push(u.clone());
        }
        i = i + 1;
    }
    proof {
        assert(new_users@.take(n as int) =~= new_users@);
    }

    let m = changed_users.len();
    let mut j: usize = 0;
    while j < m
        invariant
            m == changed_users@.len(),
            0 <= j <= m,
            ({
                let d = disabled_users(changed_users@.take(j as int));
                disable@.len() == d.len() && forall|k: int|
                    0 <= k < d.len() ==> disable@[k]@ == d[k]
            }),
            ({
                let e = enabled_users(changed_users@.take(j as int));
                enable@.len() == e.len() && forall|k: int|
                    0 <= k < e.len() ==> enable@[k]@ == e[k]
            }),
            ({
                let u = updated_pairs(changed_users@.take(j as int));
                update@.len() == u.len() && forall|k: int|
                    0 <= k < u.len() ==> update@[k]@ == u[k]
            }),
        decreases m - j,
    {
        proof {
            assert(changed_users@.take(j + 1).drop_last() =~= changed_users@.take(j as int));
        }
        let c = &changed_users[j];
        if c.old.enabled && !c.new.enabled {
            disable.push(c.new.clone());
        } else if !c.old.enabled && c.new.enabled {
            enable.push(c.new.clone());
        } else if c.old.enabled && c.new.enabled {
            update.push(ChangedUser { old: c.old.clone(), new: c.new.clone() });
        }
        j = j + 1;
    }
    proof {
        assert(changed_users@.take(m as int) =~= changed_users@);
    }

    ClassifiedUsers { create, disable, enable, update, delete: diff.deleted_user_ids }
}

/// Every pair in the update bucket kept both states enabled; in particular a
/// disable transition is never classified as an update.
pub proof fn lemma_updated_pairs_stay_enabled(s: Seq<ChangedUser>, x: ChangedUserView)
    requires
        updated_pairs(s).contains(x),
    ensures
        update_transition(x),
        !disable_transition(x),
    decreases s.len(),
{
    if s.len() > 0 {
        let rest = updated_pairs(s.drop_last());
        if update_transition(s.last()@) && x == s.last()@ {
        } else {
            assert(rest.contains(x));
            lemma_updated_pairs_stay_enabled(s.drop_last(), x);
        }
    }
}

/// A changed user that moved from enabled to disabled lands in the disable
/// bucket, and never in the update bucket.
pub proof fn lemma_disable_classification(s: Seq<ChangedUser>, i: int)
    requires
        0 <= i < s.len(),
        disable_transition(s[i]@),
    ensures
        disabled_users(s).contains(s[i]@.new),
        forall|j: int| 0 <= j < updated_pairs(s).len() ==> updated_pairs(s)[j] != s[i]@,
    decreases s.len(),
{
    if i == s.len() - 1 {
        assert(s.last() == s[i]);
        assert(disabled_users(s).last() == s[i]@.new);
    } else {
        lemma_disable_classification(s.drop_last(), i);
        assert(s.drop_last()[i] == s[i]);
        let d = disabled_users(s.drop_last());
        let k = choose|k: int| 0 <= k < d.len() && d[k] == s[i]@.new;
        assert(disabled_users(s)[k] == s[i]@.new);
    }
    assert forall|j: int| 0 <= j < updated_pairs(s).len() implies updated_pairs(s)[j] != s[i]@ by {
        if updated_pairs(s)[j] == s[i]@ {
            assert(updated_pairs(s).contains(s[i]@));
            lemma_updated_pairs_stay_enabled(s, s[i]@);
        }
    }
}

/// Every user in the create bucket starts enabled: a user that is disabled
/// at its source never reaches the provider as a create.
pub proof fn lemma_created_users_start_enabled(s: Seq<User>, i: int)
    requires
        0 <= i < creatable_users(s).len(),
    ensures
        creatable_users(s)[i].enabled,
    decreases s.len(),
{
    if s.len() > 0 && i < creatable_users(s.drop_last()).len() {
        lemma_created_users_start_enabled(s.drop_last(), i);
    }
}

/// Every state in the disable bucket is disabled: the bucket carries the
/// latest known attributes of users whose access is being removed.
pub proof fn lemma_disable_bucket_holds_disabled_states(s: Seq<ChangedUser>, i: int)
    requires
        0 <= i < disabled_users(s).len(),
    ensures
        !disabled_users(s)[i].enabled,
    decreases s.len(),
{
    if s.len() > 0 && i < disabled_users(s.drop_last()).len() {
        lemma_disable_bucket_holds_disabled_states(s.drop_last(), i);
    }
}

/// The status code the provider attaches to a rejected request.
#[derive(Clone, Copy, Debug, PartialEq, Eq, Structural)]
pub enum ErrorCode {
    /// The request was malformed or failed validation.
    InvalidArgument,
    /// The addressed entity does not exist.
    NotFound,
    /// Any other status.
    Other,
}

/// A failure reported when calling the identity provider.
#[derive(Debug)]
pub enum DirectoryError {
    /// The provider answered and rejected the request.
    Response {
        /// The provider's status code.
        code: ErrorCode,
        /// The provider's message.
        message: String,
    },
    /// The request never completed; a description of the transport failure.
    Transport(String),
}

/// The mathematical content of a `DirectoryError`.
pub enum DirectoryErrorView {
    /// A rejected request: status code and message content.
    Response { code: ErrorCode, message: Seq<char> },
    /// A transport failure description.
    Transport(Seq<char>),
}

impl View for DirectoryError {
    type V = DirectoryErrorView;

    open spec fn view(&self) -> DirectoryErrorView {
        match self {
            DirectoryError::Response { code, message } => DirectoryErrorView::Response {
                code: *code,
                message: message@,
            },
            DirectoryError::Transport(s) => DirectoryErrorView::Transport(s@),
        }
    }
}

/// Whether `needle` occurs as a contiguous run inside `hay`.
pub open spec fn contains_seq(hay: Seq<u8>, needle: Seq<u8>) -> bool {
    exists|i: int|
        0 <= i <= hay.len() - needle.len() && #[trigger] hay.subrange(i, i + needle.len())
            == needle
}

/// Whether `needle` matches `hay` at position `at`.
fn match_at(hay: &[u8], needle: &[u8], at: usize) -> (r: bool)
    requires
        at + needle@.len() <= hay@.len(),
    ensures
        r == (hay@.subrange(at as int, at + needle@.len()) == needle@),
{
    let h = hay.len();
    let n = needle.len();
    let mut j: usize = 0;
    while j < n
        invariant
            at + n <= h,
            h == hay@.len(),
            n == needle@.len(),
            0 <= j <= n,
            forall|k: int| 0 <= k < j ==> hay@[at + k] == needle@[k],
        decreases n - j,
    {
        if hay[at + j] != needle[j] {
            proof {
                assert(hay@.subrange(at as int, at + n as int)[j as int] == hay@[at + j]);
            }
            return false;
        }
        j = j + 1;
    }
    proof {
        assert(hay@.subrange(at as int, at + n as int) =~= needle@);
    }
    true
}

/// Whether `needle` occurs anywhere inside `hay`.
pub fn contains_bytes(hay: &[u8], needle: &[u8]) -> (r: bool)
    ensures
        r == contains_seq(hay@, needle@),
{
    let h = hay.len();
    let n = needle.len();
    if n > h {
        return false;
    }
    if n == 0 {
        proof {
            assert(hay@.subrange(0, 0 + needle@.len() as int) =~= needle@);
        }
        return true;
    }
    let mut i: usize = 0;
    while i <= h - n
        invariant
            0 < n <= h,
            h == hay@.len(),
            n == needle@.len(),
            0 <= i <= h - n + 1,
            forall|k: int| 0 <= k < i ==> #[trigger] hay@.subrange(k, k + n) != needle@,
        decreases h - n - i + 1,
    {
        if match_at(hay, needle, i) {
            return true;
        }
        i = i + 1;
    }
    false
}

/// The provider's message when it rejects a new user's phone number.
pub open spec fn import_phone_needle() -> Seq<char> {
    "invalid ImportHumanUserRequest_Phone"@
}

/// The provider's message when it rejects an updated phone number.
pub open spec fn update_phone_needle() -> Seq<char> {
    "invalid UpdateHumanPhoneRequest"@
}

/// Whether a message carries either of the provider's two known
/// invalid-phone-number signatures (one for creates, one for updates).
pub open spec fn invalid_phone_signature(message: Seq<char>) -> bool {
    ||| contains_seq(encode_utf8(message), encode_utf8(import_phone_needle()))
    ||| contains_seq(encode_utf8(message), encode_utf8(update_phone_needle()))
}

/// Whether an error is the provider's rejection of an invalid phone number:
/// a validation error whose message matches a known signature.
pub open spec fn is_invalid_phone_spec(e: DirectoryErrorView) -> bool {
    match e {
        DirectoryErrorView::Response { code, message } => code == ErrorCode::InvalidArgument
            && invalid_phone_signature(message),
        DirectoryErrorView::Transport(..) => false,
    }
}

/// Check if an error is an invalid phone error.
pub fn is_invalid_phone_error(error: &DirectoryError) -> (r: bool)
    ensures
        r == is_invalid_phone_spec(error@),
{
    match error {
        DirectoryError::Response { code, message } => {
            if *code == ErrorCode::InvalidArgument {
                let msg = message.as_str().as_bytes();
                contains_bytes(msg, "invalid ImportHumanUserRequest_Phone".as_bytes())
                    || contains_bytes(msg, "invalid UpdateHumanPhoneRequest".as_bytes())
            } else {
                false
            }
        },
        DirectoryError::Transport(..) => false,
    }
}

/// Decide whether a failed create or update is retried: only once, and only
/// for the provider's invalid-phone rejection. The retry repeats the same
/// operation with the phone number cleared.
pub fn retry_without_phone(user: &ZitadelUser, already_retried: bool, error: &DirectoryError) -> (r:
    Option<ZitadelUser>)
    ensures
        match r {
            Some(u) => !already_retried && is_invalid_phone_spec(error@) && u@ == (ZitadelUserView {
                user_data: UserView { phone: None, ..user@.user_data },
                ..user@
            }),
            None => already_retried || !is_invalid_phone_spec(error@),
        },
{
    if !already_retried && is_invalid_phone_error(error) {
        Some(user.without_phone())
    } else {
        None
    }
}

/// One identity-provider link attached to a created user.
#[derive(Debug)]
pub struct IdpLink {
    /// The identity provider's configured id.
    pub config_id: String,
    /// The user's id at the source directory.
    pub external_user_id: String,
    /// The user's display name.
    pub display_name: String,
}

/// The mathematical content of an `IdpLink`.
#[verifier::ext_equal]
pub struct IdpLinkView {
    /// Provider configuration id content.
    pub config_id: Seq<char>,
    /// External user id content.
    pub external_user_id: Seq<char>,
    /// Display name content.
    pub display_name: Seq<char>,
}

impl View for IdpLink {
    type V = IdpLinkView;

    open spec fn view(&self) -> IdpLinkView {
        IdpLinkView {
            config_id: self.config_id@,
            external_user_id: self.external_user_id@,
            display_name: self.display_name@,
        }
    }
}

/// The request that creates one human user at the provider.
#[derive(Debug)]
pub struct CreateUserRequest {
    /// The login name, which is the email address.
    pub user_name: String,
    /// The user's first name.
    pub first_name: String,
    /// The user's last name.
    pub last_name: String,
    /// The user's display name: "last, first".
    pub display_name: String,
    /// The user's nick name, which is the source directory id.
    pub nick_name: String,
    /// The user's email address.
    pub email: String,
    /// Whether the email starts out verified; a verification requirement
    /// means it starts unverified.
    pub email_verified: bool,
    /// The user's phone number, if any.
    pub phone: Option<String>,
    /// Whether the phone starts out verified.
    pub phone_verified: bool,
    /// Identity provider links; one when SSO linking is enabled, else none.
    pub idps: Vec<IdpLink>,
}

/// The mathematical content of a `CreateUserRequest`.
#[verifier::ext_equal]
pub struct CreateUserRequestView {
    /// Login name content.
    pub user_name: Seq<char>,
    /// First name content.
    pub first_name: Seq<char>,
    /// Last name content.
    pub last_name: Seq<char>,
    /// Display name content.
    pub display_name: Seq<char>,
    /// Nick name content.
    pub nick_name: Seq<char>,
    /// Email content.
    pub email: Seq<char>,
    /// Whether the email starts out verified.
    pub email_verified: bool,
    /// Phone content, if any.
    pub phone: Option<Seq<char>>,
    /// Whether the phone starts out verified.
    pub phone_verified: bool,
    /// Identity provider link contents.
    pub idps: Seq<IdpLinkView>,
}

impl View for CreateUserRequest {
    type V = CreateUserRequestView;

    open spec fn view(&self) -> CreateUserRequestView {
        CreateUserRequestView {
            user_name: self.user_name@,
            first_name: self.first_name@,
            last_name: self.last_name@,
            display_name: self.display_name@,
            nick_name: self.nick_name@,
            email: self.email@,
            email_verified: self.email_verified,
            phone: match self.phone {
                Some(p) => Some(p@),
                None => None,
            },
            phone_verified: self.phone_verified,
            idps: self.idps@.map_values(|l: IdpLink| l@),
        }
    }
}

/// The identity provider links a created user carries: exactly one when SSO
/// linking is on, keyed by the external user id.
pub open spec fn idp_links_spec(u: ZitadelUserView) -> Seq<IdpLinkView> {
    match u.idp_id {
        Some(idp) => seq![
            IdpLinkView {
                config_id: idp,
                external_user_id: value_display(u.user_data.external_user_id),
                display_name: display_name_spec(u.user_data),
            },
        ],
        None => Seq::<IdpLinkView>::empty(),
    }
}

/// The create request a provider-facing user maps to: the email doubles as
/// the login name, and a verification requirement means the email or phone
/// starts out unverified.
pub open spec fn create_request_spec(u: ZitadelUserView) -> CreateUserRequestView {
    CreateUserRequestView {
        user_name: value_display(u.user_data.email),
        first_name: value_display(u.user_data.first_name),
        last_name: value_display(u.user_data.last_name),
        display_name: display_name_spec(u.user_data),
        nick_name: value_display(u.user_data.external_user_id),
        email: value_display(u.user_data.email),
        email_verified: !u.needs_email_verification,
        phone: match u.user_data.phone {
            Some(p) => Some(value_display(p)),
            None => None,
        },
        phone_verified: !u.needs_phone_verification,
        idps: idp_links_spec(u),
    }
}

/// Build the create request for a provider-facing user.
pub fn build_create_request(user: &ZitadelUser) -> (r: CreateUserRequest)
    ensures
        r@ == create_request_spec(user@),
{
    let display_name = user.get_display_name();
    let mut idps: Vec<IdpLink> = Vec::new();
    if let Some(idp_id) = &user.idp_id {
        idps.push(
            IdpLink {
                config_id: idp_id.clone(),
                external_user_id: user.user_data.external_user_id.to_display_string(),
                display_name: user.get_display_name(),
            },
        );
    }
    let r = CreateUserRequest {
        user_name: user.user_data.email.to_display_string(),
        first_name: user.user_data.first_name.to_display_string(),
        last_name: user.user_data.last_name.to_display_string(),
        display_name,
        nick_name: user.user_data.external_user_id.to_display_string(),
        email: user.user_data.email.to_display_string(),
        email_verified: !user.needs_email_verification,
        phone: match &user.user_data.phone {
            Some(p) => Some(p.to_display_string()),
            None => None,
        },
        phone_verified: !user.needs_phone_verification,
        idps,
    };
    proof {
        assert(r@.idps =~= idp_links_spec(user@));
        assert(r@ =~= create_request_spec(user@));
    }
    r
}

/// The rendering of the deterministic link id derived for an external user
/// id: a version-5 UUID under the engine's fixed namespace.
pub uninterp spec fn link_id_of(external_id: Seq<u8>) -> Seq<char>;

/// Relies on `uuid::Uuid::new_v5` and the hyphenated `Display` form of
/// `uuid::Uuid`: a version-5 UUID is a SHA-1 digest of the namespace and the
/// name bytes alone, rendered as lowercase hexadecimal with hyphens.
#[verifier::external_body]
pub(crate) fn derive_link_id(external_id: &[u8]) -> (r: String)
    ensures
        r@ == link_id_of(external_id@),
{
    let namespace = uuid::Uuid::from_bytes([
        0xd9, 0x97, 0x9c, 0xff, 0xab, 0xee, 0x46, 0x66, 0xbc, 0x88, 0x1e, 0xc4, 0x5a, 0x84, 0x3f,
        0xb8,
    ]);
    uuid::Uuid::new_v5(&namespace, external_id).to_string()
}

/// Everything the runner sends the provider to create one user: the create
/// request, the two metadata values set on the new account, and the
/// application role granted to it, in that order. Failure at any step stops
/// the remaining steps for that user.
#[derive(Debug)]
pub struct ImportPlan {
    /// The create request.
    pub request: CreateUserRequest,
    /// The metadata value stored under the preferred-username key.
    pub preferred_username: String,
    /// The metadata value stored under the localpart key: the deterministic
    /// link id, stable across passes.
    pub localpart: String,
    /// The project the role grant applies to.
    pub project_id: String,
    /// The fixed application role granted to every synced user.
    pub role: String,
}

/// The mathematical content of an `ImportPlan`.
#[verifier::ext_equal]
pub struct ImportPlanView {
    /// Create request content.
    pub request: CreateUserRequestView,
    /// Preferred-username metadata content.
    pub preferred_username: Seq<char>,
    /// Localpart metadata content.
    pub localpart: Seq<char>,
    /// Project id content.
    pub project_id: Seq<char>,
    /// Role name content.
    pub role: Seq<char>,
}

impl View for ImportPlan {
    type V = ImportPlanView;

    open spec fn view(&self) -> ImportPlanView {
        ImportPlanView {
            request: self.request@,
            preferred_username: self.preferred_username@,
            localpart: self.localpart@,
            project_id: self.project_id@,
            role: self.role@,
        }
    }
}

/// What importing a user sends the provider: nothing during a dry run, and
/// nothing for a user that is disabled; otherwise the full import plan.
pub open spec fn import_plan_spec(u: ZitadelUserView, project_id: Seq<char>, dry_run: bool) -> Option<
    ImportPlanView,
> {
    if dry_run || !u.user_data.enabled {
        None::<ImportPlanView>
    } else {
        Some(
            ImportPlanView {
                request: create_request_spec(u),
                preferred_username: value_display(u.user_data.preferred_username),
                localpart: link_id_of(value_bytes(u.user_data.external_user_id)),
                project_id: project_id,
                role: "User"@,
            },
        )
    }
}

/// Plan the import of one user. Returns nothing when the pass is a dry run
/// (the runner only logs the intent) or when the user is disabled (the
/// provider never learns of users that start disabled).
pub fn plan_import(user: &ZitadelUser, project_id: &str, dry_run: bool) -> (r: Option<ImportPlan>)
    ensures
        match r {
            Some(p) => import_plan_spec(user@, project_id@, dry_run) == Some(p@),
            None => import_plan_spec(user@, project_id@, dry_run) is None,
        },
{
    if dry_run || !user.user_data.enabled {
        return None;
    }
    let plan = ImportPlan {
        request: build_create_request(user),
        preferred_username: user.user_data.preferred_username.to_display_string(),
        localpart: derive_link_id(user.user_data.external_user_id.byte_slice()),
        project_id: project_id.to_owned(),
        role: "User".to_owned(),
    };
    proof {
        assert(plan@ =~= import_plan_spec(user@, project_id@, dry_run).unwrap());
    }
    Some(plan)
}

/// Users with the same external id derive the same link id, in every pass:
/// the localpart metadata of their import plans is identical.
pub proof fn lemma_link_id_deterministic(
    u1: ZitadelUserView,
    u2: ZitadelUserView,
    project_id: Seq<char>,
)
    requires
        value_bytes(u1.user_data.external_user_id) == value_bytes(u2.user_data.external_user_id),
        import_plan_spec(u1, project_id, false) is Some,
        import_plan_spec(u2, project_id, false) is Some,
    ensures
        import_plan_spec(u1, project_id, false).unwrap().localpart == import_plan_spec(
            u2,
            project_id,
            false,
        ).unwrap().localpart,
{
}

/// One read-only lookup at the provider.
#[derive(Debug)]
pub enum DirectoryQuery {
    /// Search for a user by login name.
    GetUserByLoginName(String),
    /// Search for a user by nick name.
    GetUserByNickName(String),
}

/// The mathematical content of a `DirectoryQuery`.
pub enum DirectoryQueryView {
    /// Login name content.
    GetUserByLoginName(Seq<char>),
    /// Nick name content.
    GetUserByNickName(Seq<char>),
}

impl View for DirectoryQuery {
    type V = DirectoryQueryView;

    open spec fn view(&self) -> DirectoryQueryView {
        match self {
            DirectoryQuery::GetUserByLoginName(s) => DirectoryQueryView::GetUserByLoginName(s@),
            DirectoryQuery::GetUserByNickName(s) => DirectoryQueryView::GetUserByNickName(s@),
        }
    }
}

/// The lookup that resolves a user's provider id: nothing during a dry run,
/// otherwise a search by login name, which is the email address.
pub open spec fn user_lookup_spec(u: ZitadelUserView, dry_run: bool) -> Option<
    DirectoryQueryView,
> {
    if dry_run {
        None::<DirectoryQueryView>
    } else {
        Some(DirectoryQueryView::GetUserByLoginName(value_display(u.user_data.email)))
    }
}

/// Plan the lookup that resolves a user's provider id before an update or a
/// disable. Returns nothing during a dry run: the item is only logged.
pub fn plan_user_lookup(user: &ZitadelUser, dry_run: bool) -> (r: Option<DirectoryQuery>)
    ensures
        match r {
            Some(q) => user_lookup_spec(user@, dry_run) == Some(q@),
            None => user_lookup_spec(user@, dry_run) is None,
        },
{
    if dry_run {
        None
    } else {
        Some(DirectoryQuery::GetUserByLoginName(user.user_data.email.to_display_string()))
    }
}

/// Interpret a lookup answer: the provider reports an unknown login or nick
/// name either as an empty answer or as a not-found rejection, and both mean
/// the same thing.
pub fn interpret_lookup(result: Result<Option<String>, DirectoryError>) -> (r: Result<
    Option<String>,
    DirectoryError,
>)
    ensures
        match result {
            Result::Ok(found) => r == Result::<Option<String>, DirectoryError>::Ok(found),
            Result::Err(e) => if e@ matches DirectoryErrorView::Response { code, .. }
                && code == ErrorCode::NotFound {
                r == Result::<Option<String>, DirectoryError>::Ok(None::<String>)
            } else {
                r == Result::<Option<String>, DirectoryError>::Err(e)
            },
        },
{
    match result {
        Result::Ok(found) => Result::Ok(found),
        Result::Err(e) => {
            let not_found = match &e {
                DirectoryError::Response { code, .. } => *code == ErrorCode::NotFound,
                DirectoryError::Transport(..) => false,
            };
            if not_found {
                Result::Ok(None)
            } else {
                Result::Err(e)
            }
        },
    }
}

/// Require that a lookup found the user: an empty answer is the
/// `UserNotFound` error, logged and skipped by the runner.
pub fn require_user_id(found: Option<String>) -> (r: Result<String, Error>)
    ensures
        match found {
            Some(id) => r == Result::<String, Error>::Ok(id),
            None => r matches Result::Err(e) && e is UserNotFound,
        },
{
    match found {
        Some(id) => Result::Ok(id),
        None => Result::Err(Error::UserNotFound),
    }
}

/// One field-level call of an update; the runner addresses each to the
/// resolved provider id.
#[derive(Debug)]
pub enum UpdateAction {
    /// Change the login name to the new email address.
    UpdateLoginName(String),
    /// Change first name, last name and display name.
    UpdateProfile {
        /// The new first name.
        first_name: String,
        /// The new last name.
        last_name: String,
        /// The new display name.
        display_name: String,
    },
    /// Remove the phone number.
    RemovePhone,
    /// Set the phone number.
    SetPhone {
        /// The new phone number.
        phone: String,
        /// Whether it starts out verified.
        verified: bool,
    },
    /// Set the email address.
    SetEmail {
        /// The new email address.
        email: String,
        /// Whether it starts out verified.
        verified: bool,
    },
    /// Store the new preferred username in the user's metadata.
    SetPreferredUsername(String),
}

/// The mathematical content of an `UpdateAction`.
#[verifier::ext_equal]
pub enum UpdateActionView {
    /// Login name content.
    UpdateLoginName(Seq<char>),
    /// Profile contents.
    UpdateProfile { first_name: Seq<char>, last_name: Seq<char>, display_name: Seq<char> },
    /// Remove the phone number.
    RemovePhone,
    /// Phone content and verification flag.
    SetPhone { phone: Seq<char>, verified: bool },
    /// Email content and verification flag.
    SetEmail { email: Seq<char>, verified: bool },
    /// Preferred username content.
    SetPreferredUsername(Seq<char>),
}

impl View for UpdateAction {
    type V = UpdateActionView;

    open spec fn view(&self) -> UpdateActionView {
        match self {
            UpdateAction::UpdateLoginName(s) => UpdateActionView::UpdateLoginName(s@),
            UpdateAction::UpdateProfile { first_name, last_name, display_name } => {
                UpdateActionView::UpdateProfile {
                    first_name: first_name@,
                    last_name: last_name@,
                    display_name: display_name@,
                }
            },
            UpdateAction::RemovePhone => UpdateActionView::RemovePhone,
            UpdateAction::SetPhone { phone, verified } => UpdateActionView::SetPhone {
                phone: phone@,
                verified: *verified,
            },
            UpdateAction::SetEmail { email, verified } => UpdateActionView::SetEmail {
                email: email@,
                verified: *verified,
            },
            UpdateAction::SetPreferredUsername(s) => UpdateActionView::SetPreferredUsername(s@),
        }
    }
}

/// Whether two values differ in byte content; fields compare byte-for-byte,
/// so a text value equals the byte value of its UTF-8 encoding.
pub open spec fn value_changed(a: ValueView, b: ValueView) -> bool {
    value_bytes(a) != value_bytes(b)
}

/// The calls an update issues, in order: login name if the email changed,
/// profile if a name changed, then the phone (removed if the new state has
/// none and the old had one, set whenever the new state has one), email if
/// it changed, and the preferred-username metadata if it changed. An
/// unchanged field issues no call.
pub open spec fn update_actions_spec(old_u: ZitadelUserView, new_u: ZitadelUserView) -> Seq<
    UpdateActionView,
> {
    let email_changed = value_changed(old_u.user_data.email, new_u.user_data.email);
    let name_changed = value_changed(old_u.user_data.first_name, new_u.user_data.first_name)
        || value_changed(old_u.user_data.last_name, new_u.user_data.last_name);
    let pref_changed = value_changed(
        old_u.user_data.preferred_username,
        new_u.user_data.preferred_username,
    );
    (if email_changed {
        seq![UpdateActionView::UpdateLoginName(value_display(new_u.user_data.email))]
    } else {
        Seq::<UpdateActionView>::empty()
    }) + (if name_changed {
        seq![
            UpdateActionView::UpdateProfile {
                first_name: value_display(new_u.user_data.first_name),
                last_name: value_display(new_u.user_data.last_name),
                display_name: display_name_spec(new_u.user_data),
            },
        ]
    } else {
        Seq::<UpdateActionView>::empty()
    }) + (match (old_u.user_data.phone, new_u.user_data.phone) {
        (Some(_), None) => seq![UpdateActionView::RemovePhone],
        (_, Some(p)) => seq![
            UpdateActionView::SetPhone {
                phone: value_display(p),
                verified: !new_u.needs_phone_verification,
            },
        ],
        (None, None) => Seq::<UpdateActionView>::empty(),
    }) + (if email_changed {
        seq![
            UpdateActionView::SetEmail {
                email: value_display(new_u.user_data.email),
                verified: !new_u.needs_email_verification,
            },
        ]
    } else {
        Seq::<UpdateActionView>::empty()
    }) + (if pref_changed {
        seq![
            UpdateActionView::SetPreferredUsername(
                value_display(new_u.user_data.preferred_username),
            ),
        ]
    } else {
        Seq::<UpdateActionView>::empty()
    })
}

/// Plan the field-level calls that move a user from its old state to its new
/// one. Only fields that changed issue calls; the phone is set whenever the
/// new state has one.
pub fn plan_update_actions(old_u: &ZitadelUser, new_u: &ZitadelUser) -> (r: Vec<UpdateAction>)
    ensures
        ({
            let a = update_actions_spec(old_u@, new_u@);
            r@.len() == a.len() && forall|i: int| 0 <= i < a.len() ==> r@[i]@ == a[i]
        }),
{
    let mut r: Vec<UpdateAction> = Vec::new();
    let email_changed = !(old_u.user_data.email == new_u.user_data.email);
    let name_changed = !(old_u.user_data.first_name == new_u.user_data.first_name) || !(
    old_u.user_data.last_name == new_u.user_data.last_name);
    let pref_changed = !(old_u.user_data.preferred_username == new_u.user_data.preferred_username);

    if email_changed {
        r.push(UpdateAction::UpdateLoginName(new_u.user_data.email.to_display_string()));
    }
    if name_changed {
        r.push(
            UpdateAction::UpdateProfile {
                first_name: new_u.user_data.first_name.to_display_string(),
                last_name: new_u.user_data.last_name.to_display_string(),
                display_name: new_u.get_display_name(),
            },
        );
    }
    match (&old_u.user_data.phone, &new_u.user_data.phone) {
        (Some(_), None) => {
            r.push(UpdateAction::RemovePhone);
        },
        (_, Some(p)) => {
            r.push(
                UpdateAction::SetPhone {
                    phone: p.to_display_string(),
                    verified: !new_u.needs_phone_verification,
                },
            );
        },
        (None, None) => {},
    }
    if email_changed {
        r.push(
            UpdateAction::SetEmail {
                email: new_u.user_data.email.to_display_string(),
                verified: !new_u.needs_email_verification,
            },
        );
    }
    if pref_changed {
        r.push(
            UpdateAction::SetPreferredUsername(
                new_u.user_data.preferred_username.to_display_string(),
            ),
        );
    }
    proof {
        assert(r@.map_values(|a: UpdateAction| a@) =~= update_actions_spec(old_u@, new_u@));
    }
    r
}

/// An update where only the phone changed, from present to absent, issues
/// exactly one call: the phone removal.
pub proof fn lemma_phone_removal_is_minimal(old_u: ZitadelUserView, new_u: ZitadelUserView)
    requires
        !value_changed(old_u.user_data.email, new_u.user_data.email),
        !value_changed(old_u.user_data.first_name, new_u.user_data.first_name),
        !value_changed(old_u.user_data.last_name, new_u.user_data.last_name),
        !value_changed(old_u.user_data.preferred_username, new_u.user_data.preferred_username),
        old_u.user_data.phone is Some,
        new_u.user_data.phone is None,
    ensures
        update_actions_spec(old_u, new_u) =~= seq![UpdateActionView::RemovePhone],
{
}

/// What deleting one identity starts with.
#[derive(Debug)]
pub enum DeleteStep {
    /// A dry run: nothing is sent; the runner only logs the intent.
    Skip,
    /// Resolve the provider id first; an empty answer means the user is
    /// already absent, which is idempotent and only logged.
    Lookup(DirectoryQuery),
    /// Remove directly by provider id; here a not-found answer is a hard
    /// failure, since the caller supplied an id it believed existed.
    Remove(String),
}

/// The mathematical content of a `DeleteStep`.
pub enum DeleteStepView {
    /// Nothing is sent.
    Skip,
    /// Lookup content.
    Lookup(DirectoryQueryView),
    /// Provider id content.
    Remove(Seq<char>),
}

impl View for DeleteStep {
    type V = DeleteStepView;

    open spec fn view(&self) -> DeleteStepView {
        match self {
            DeleteStep::Skip => DeleteStepView::Skip,
            DeleteStep::Lookup(q) => DeleteStepView::Lookup(q@),
            DeleteStep::Remove(id) => DeleteStepView::Remove(id@),
        }
    }
}

/// How a deletion starts: nothing during a dry run; a login-name lookup for
/// a `Login` identity; a nick-name lookup for a `Nick` identity; a direct
/// removal for a provider id.
pub open spec fn delete_step_spec(id: UserIdView, dry_run: bool) -> DeleteStepView {
    if dry_run {
        DeleteStepView::Skip
    } else {
        match id {
            UserIdView::Login(email) => DeleteStepView::Lookup(
                DirectoryQueryView::GetUserByLoginName(email),
            ),
            UserIdView::Nick(nick) => DeleteStepView::Lookup(
                DirectoryQueryView::GetUserByNickName(nick),
            ),
            UserIdView::ZitadelId(zid) => DeleteStepView::Remove(zid),
        }
    }
}

/// Plan the deletion of one identity.
pub fn plan_delete(user_id: &UserId, dry_run: bool) -> (r: DeleteStep)
    ensures
        r@ == delete_step_spec(user_id@, dry_run),
{
    if dry_run {
        return DeleteStep::Skip;
    }
    match user_id {
        UserId::Login(email) => DeleteStep::Lookup(
            DirectoryQuery::GetUserByLoginName(email.clone()),
        ),
        UserId::Nick(nick) => DeleteStep::Lookup(DirectoryQuery::GetUserByNickName(nick.clone())),
        UserId::ZitadelId(zid) => DeleteStep::Remove(zid.clone()),
    }
}

/// How a delete lookup's answer is acted on.
#[derive(Debug)]
pub enum DeleteDecision {
    /// Remove the user with this provider id.
    Remove(String),
    /// The user is already absent: deletion is idempotent, the runner logs
    /// it as informational and the pass continues.
    AlreadyAbsent,
}

/// Decide what a delete lookup's answer means.
pub fn resolve_delete_lookup(found: Option<String>) -> (r: DeleteDecision)
    ensures
        match found {
            Some(id) => r matches DeleteDecision::Remove(rid) && rid == id,
            None => r is AlreadyAbsent,
        },
{
    match found {
        Some(id) => DeleteDecision::Remove(id),
        None => DeleteDecision::AlreadyAbsent,
    }
}

/// One of the classified operation sets.
#[derive(Clone, Copy, Debug, PartialEq, Eq, Structural)]
pub enum Bucket {
    /// New users to create.
    Create,
    /// Users to disable.
    Disable,
    /// Users to re-create after being re-enabled.
    Enable,
    /// Users to update field by field.
    Update,
    /// Identities to delete.
    Delete,
}

/// Whether a bucket is applied under the deactivate-only mode gate: disable
/// and delete always are; create, enable and update only when the mode is
/// off, since a degraded engine is trusted to remove access, never to grant
/// it.
pub open spec fn bucket_applies_spec(bucket: Bucket, deactivate_only: bool) -> bool {
    bucket == Bucket::Disable || bucket == Bucket::Delete || !deactivate_only
}

/// Decide whether a bucket is applied in this pass.
pub fn bucket_applies(bucket: Bucket, deactivate_only: bool) -> (r: bool)
    ensures
        r == bucket_applies_spec(bucket, deactivate_only),
{
    match bucket {
        Bucket::Disable => true,
        Bucket::Delete => true,
        _ => !deactivate_only,
    }
}

/// A dry run sends the provider nothing: no import plan is produced, no
/// lookup is planned, and every deletion is skipped, whatever the bucket
/// holds.
pub proof fn lemma_dry_run_never_mutates(
    u: ZitadelUserView,
    project_id: Seq<char>,
    id: UserIdView,
)
    ensures
        import_plan_spec(u, project_id, true) is None,
        user_lookup_spec(u, true) is None,
        delete_step_spec(id, true) is Skip,
{
}

} // verus!
