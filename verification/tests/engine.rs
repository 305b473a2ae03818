//! Tests for classification, operation planning and the retry heuristic.

use ldap_sync::config::{FeatureFlag, FeatureFlags};
use ldap_sync::sources::csv::{users_to_diff, CsvData};
use ldap_sync::sources::ukt::removed_emails_to_diff;
use ldap_sync::user::{StringOrBytes, User, ZitadelUser};
use ldap_sync::zitadel::{
    bucket_applies, classify, is_invalid_phone_error, plan_delete, plan_import, plan_update_actions,
    plan_user_lookup, require_user_id, resolve_delete_lookup, retry_without_phone, Bucket,
    ChangedUser, DeleteDecision, DeleteStep, DirectoryError, DirectoryQuery, ErrorCode, SourceDiff,
    UpdateAction, UserId,
};

fn text(s: &str) -> StringOrBytes {
    StringOrBytes::Text(s.to_owned())
}

fn user(email: &str, enabled: bool) -> User {
    User {
        first_name: text("Bob"),
        last_name: text("Tables"),
        email: text(email),
        phone: Some(text("+12015550123")),
        enabled,
        preferred_username: text("Bobby"),
        external_user_id: text("testuser"),
    }
}

fn flags(list: Vec<FeatureFlag>) -> FeatureFlags {
    FeatureFlags::from_flags(list)
}

fn zitadel_user(email: &str, enabled: bool) -> ZitadelUser {
    user(email, enabled).to_zitadel_user(&flags(vec![]), "idp-1")
}

fn empty_diff() -> SourceDiff {
    SourceDiff { new_users: vec![], changed_users: vec![], deleted_user_ids: vec![] }
}

#[test]
fn classify_partitions_changed_users_by_transition() {
    let diff = SourceDiff {
        new_users: vec![user("new@famedly.de", true), user("dropped@famedly.de", false)],
        changed_users: vec![
            ChangedUser { old: user("disable@famedly.de", true), new: user("disable@famedly.de", false) },
            ChangedUser { old: user("enable@famedly.de", false), new: user("enable@famedly.de", true) },
            ChangedUser { old: user("update@famedly.de", true), new: user("update2@famedly.de", true) },
            ChangedUser { old: user("absent@famedly.de", false), new: user("absent@famedly.de", false) },
        ],
        deleted_user_ids: vec![UserId::Login("deleted@famedly.de".to_owned())],
    };
    let classified = classify(diff);
    assert_eq!(classified.create.len(), 1);
    assert_eq!(classified.create[0].email, text("new@famedly.de"));
    assert_eq!(classified.disable.len(), 1);
    assert_eq!(classified.disable[0].email, text("disable@famedly.de"));
    assert!(!classified.disable[0].enabled, "disable carries the latest state");
    assert_eq!(classified.enable.len(), 1);
    assert_eq!(classified.enable[0].email, text("enable@famedly.de"));
    assert_eq!(classified.update.len(), 1);
    assert_eq!(classified.update[0].new.email, text("update2@famedly.de"));
    assert_eq!(classified.delete.len(), 1);
    assert!(matches!(&classified.delete[0], UserId::Login(e) if e == "deleted@famedly.de"));
}

#[test]
fn disable_transition_never_reaches_the_update_bucket() {
    let diff = SourceDiff {
        new_users: vec![],
        changed_users: vec![ChangedUser {
            old: user("disable@famedly.de", true),
            new: user("disable@famedly.de", false),
        }],
        deleted_user_ids: vec![],
    };
    let classified = classify(diff);
    assert_eq!(classified.disable.len(), 1);
    assert_eq!(classified.update.len(), 0);
    assert_eq!(classified.enable.len(), 0);
    assert_eq!(classified.create.len(), 0);
}

#[test]
fn new_disabled_users_never_reach_create() {
    let diff = SourceDiff {
        new_users: vec![user("dropped@famedly.de", false)],
        changed_users: vec![],
        deleted_user_ids: vec![],
    };
    let classified = classify(diff);
    assert_eq!(classified.create.len(), 0);
}

#[test]
fn import_plan_carries_request_metadata_and_grant() {
    let u = user("simple@famedly.de", true)
        .to_zitadel_user(&flags(vec![FeatureFlag::SsoLogin]), "idp-1");
    let plan = plan_import(&u, "project-1", false).expect("an enabled user gets a plan");
    assert_eq!(plan.request.user_name, "simple@famedly.de");
    assert_eq!(plan.request.first_name, "Bob");
    assert_eq!(plan.request.last_name, "Tables");
    assert_eq!(plan.request.display_name, "Tables, Bob");
    assert_eq!(plan.request.nick_name, "testuser");
    assert_eq!(plan.request.email, "simple@famedly.de");
    assert!(plan.request.email_verified, "no verification requirement: starts verified");
    assert_eq!(plan.request.phone, Some("+12015550123".to_owned()));
    assert!(plan.request.phone_verified);
    assert_eq!(plan.request.idps.len(), 1);
    assert_eq!(plan.request.idps[0].config_id, "idp-1");
    assert_eq!(plan.request.idps[0].external_user_id, "testuser");
    assert_eq!(plan.request.idps[0].display_name, "Tables, Bob");
    assert_eq!(plan.preferred_username, "Bobby");
    // The deterministic link id: a version-5 UUID of the external user id.
    assert_eq!(plan.localpart, "7ce13a45-f20c-518c-9c4d-35a8c5695060");
    assert_eq!(plan.project_id, "project-1");
    assert_eq!(plan.role, "User");
}

#[test]
fn verification_flags_invert_into_the_request() {
    let u = user("simple@famedly.de", true).to_zitadel_user(
        &flags(vec![FeatureFlag::VerifyEmail, FeatureFlag::VerifyPhone]),
        "idp-1",
    );
    let plan = plan_import(&u, "project-1", false).expect("an enabled user gets a plan");
    assert!(!plan.request.email_verified);
    assert!(!plan.request.phone_verified);
    assert_eq!(plan.request.idps.len(), 0, "no SSO flag, no identity provider link");
}

#[test]
fn link_id_is_identical_across_repeated_passes() {
    let u1 = zitadel_user("simple@famedly.de", true);
    let u2 = zitadel_user("other@famedly.de", true);
    let p1 = plan_import(&u1, "project-1", false).unwrap();
    let p2 = plan_import(&u1, "project-1", false).unwrap();
    let p3 = plan_import(&u2, "project-1", false).unwrap();
    assert_eq!(p1.localpart, p2.localpart);
    // Same external user id, same link id, even for a different email.
    assert_eq!(p1.localpart, p3.localpart);
}

#[test]
fn link_id_distinguishes_external_ids() {
    let mut u = user("simple@famedly.de", true);
    u.external_user_id = text("id1");
    let other = u.to_zitadel_user(&flags(vec![]), "idp-1");
    let plan = plan_import(&other, "project-1", false).unwrap();
    assert_eq!(plan.localpart, "f6d1aa30-01a8-5355-96d8-6acf78deda9a");
}

#[test]
fn disabled_users_are_not_imported() {
    let u = zitadel_user("disabled_user@famedly.de", false);
    assert!(plan_import(&u, "project-1", false).is_none());
}

#[test]
fn dry_run_plans_no_mutating_call_for_any_bucket() {
    let create_target = zitadel_user("dry_run@famedly.de", true);
    let update_target = zitadel_user("dry_run@famedly.de", true);
    assert!(plan_import(&create_target, "project-1", true).is_none());
    assert!(plan_user_lookup(&update_target, true).is_none());
    assert!(matches!(plan_delete(&UserId::Login("dry_run@famedly.de".to_owned()), true), DeleteStep::Skip));
    assert!(matches!(plan_delete(&UserId::Nick("testuser".to_owned()), true), DeleteStep::Skip));
    assert!(matches!(plan_delete(&UserId::ZitadelId("42".to_owned()), true), DeleteStep::Skip));
}

#[test]
fn phone_only_removal_issues_exactly_one_call() {
    let old_state = zitadel_user("change@famedly.de", true);
    let mut new_user = user("change@famedly.de", true);
    new_user.phone = None;
    let new_state = new_user.to_zitadel_user(&flags(vec![]), "idp-1");
    let actions = plan_update_actions(&old_state, &new_state);
    assert_eq!(actions.len(), 1, "exactly one update call");
    assert!(matches!(actions[0], UpdateAction::RemovePhone));
}

#[test]
fn update_actions_follow_field_changes_in_order() {
    let old_state = zitadel_user("change@famedly.de", true);
    let mut changed = user("changed@famedly.de", true);
    changed.first_name = text("Robert");
    changed.preferred_username = text("Bobby2");
    changed.phone = Some(text("+12015550124"));
    let new_state = changed.to_zitadel_user(&flags(vec![]), "idp-1");
    let actions = plan_update_actions(&old_state, &new_state);
    assert_eq!(actions.len(), 5);
    assert!(matches!(&actions[0], UpdateAction::UpdateLoginName(v) if v == "changed@famedly.de"));
    assert!(matches!(
        &actions[1],
        UpdateAction::UpdateProfile { first_name, display_name, .. }
            if first_name == "Robert" && display_name == "Tables, Robert"
    ));
    assert!(matches!(
        &actions[2],
        UpdateAction::SetPhone { phone, verified: true } if phone == "+12015550124"
    ));
    assert!(matches!(
        &actions[3],
        UpdateAction::SetEmail { email, verified: true } if email == "changed@famedly.de"
    ));
    assert!(matches!(&actions[4], UpdateAction::SetPreferredUsername(v) if v == "Bobby2"));
}

#[test]
fn unchanged_users_issue_no_calls() {
    let old_state = zitadel_user("same@famedly.de", true);
    let mut same = user("same@famedly.de", true);
    same.phone = None;
    let mut old_no_phone = user("same@famedly.de", true);
    old_no_phone.phone = None;
    let actions = plan_update_actions(
        &old_no_phone.to_zitadel_user(&flags(vec![]), "idp-1"),
        &same.to_zitadel_user(&flags(vec![]), "idp-1"),
    );
    assert_eq!(actions.len(), 0);
    // A present phone is always set, even when unchanged.
    let actions = plan_update_actions(&old_state, &zitadel_user("same@famedly.de", true));
    assert_eq!(actions.len(), 1);
    assert!(matches!(&actions[0], UpdateAction::SetPhone { .. }));
}

#[test]
fn invalid_phone_error_matches_both_provider_signatures() {
    let create_err = DirectoryError::Response {
        code: ErrorCode::InvalidArgument,
        message: "rpc error: invalid ImportHumanUserRequest_Phone: value length".to_owned(),
    };
    let update_err = DirectoryError::Response {
        code: ErrorCode::InvalidArgument,
        message: "rpc error: invalid UpdateHumanPhoneRequest: oops".to_owned(),
    };
    let wrong_code = DirectoryError::Response {
        code: ErrorCode::NotFound,
        message: "invalid ImportHumanUserRequest_Phone".to_owned(),
    };
    let wrong_message = DirectoryError::Response {
        code: ErrorCode::InvalidArgument,
        message: "something else entirely".to_owned(),
    };
    let transport = DirectoryError::Transport("connection reset".to_owned());
    assert!(is_invalid_phone_error(&create_err));
    assert!(is_invalid_phone_error(&update_err));
    assert!(!is_invalid_phone_error(&wrong_code));
    assert!(!is_invalid_phone_error(&wrong_message));
    assert!(!is_invalid_phone_error(&transport));
}

#[test]
fn invalid_phone_failure_is_retried_once_without_phone() {
    let u = zitadel_user("good_gone_bad_phone@famedly.de", true);
    let err = DirectoryError::Response {
        code: ErrorCode::InvalidArgument,
        message: "invalid ImportHumanUserRequest_Phone".to_owned(),
    };
    let retry = retry_without_phone(&u, false, &err).expect("first failure is retried");
    assert_eq!(retry.user_data.phone, None);
    assert_eq!(retry.user_data.email, text("good_gone_bad_phone@famedly.de"));
    // The retried operation is never retried again.
    assert!(retry_without_phone(&retry, true, &err).is_none());
    // Other errors are not retried at all.
    let other = DirectoryError::Transport("connection reset".to_owned());
    assert!(retry_without_phone(&u, false, &other).is_none());
}

#[test]
fn delete_plans_match_the_identity_kind() {
    let by_login = plan_delete(&UserId::Login("deleted@famedly.de".to_owned()), false);
    assert!(matches!(
        by_login,
        DeleteStep::Lookup(DirectoryQuery::GetUserByLoginName(e)) if e == "deleted@famedly.de"
    ));
    let by_nick = plan_delete(&UserId::Nick("testuser".to_owned()), false);
    assert!(matches!(
        by_nick,
        DeleteStep::Lookup(DirectoryQuery::GetUserByNickName(n)) if n == "testuser"
    ));
    let by_id = plan_delete(&UserId::ZitadelId("42".to_owned()), false);
    assert!(matches!(by_id, DeleteStep::Remove(id) if id == "42"));
}

#[test]
fn delete_lookup_miss_is_idempotent() {
    assert!(matches!(resolve_delete_lookup(None), DeleteDecision::AlreadyAbsent));
    assert!(matches!(
        resolve_delete_lookup(Some("42".to_owned())),
        DeleteDecision::Remove(id) if id == "42"
    ));
}

#[test]
fn lookup_not_found_answers_count_as_empty() {
    let not_found = DirectoryError::Response {
        code: ErrorCode::NotFound,
        message: "user not found".to_owned(),
    };
    assert!(matches!(ldap_sync::zitadel::interpret_lookup(Err(not_found)), Ok(None)));
    assert!(matches!(
        ldap_sync::zitadel::interpret_lookup(Ok(Some("42".to_owned()))),
        Ok(Some(id)) if id == "42"
    ));
    assert!(matches!(ldap_sync::zitadel::interpret_lookup(Ok(None)), Ok(None)));
    let other = DirectoryError::Transport("connection reset".to_owned());
    assert!(ldap_sync::zitadel::interpret_lookup(Err(other)).is_err());
}

#[test]
fn update_target_must_exist() {
    assert!(matches!(require_user_id(Some("42".to_owned())), Ok(id) if id == "42"));
    assert!(require_user_id(None).is_err());
}

#[test]
fn user_lookup_searches_by_login_name() {
    let u = zitadel_user("change@famedly.de", true);
    let q = plan_user_lookup(&u, false).expect("lookups run outside dry runs");
    assert!(matches!(q, DirectoryQuery::GetUserByLoginName(e) if e == "change@famedly.de"));
}

#[test]
fn deactivate_only_gates_create_enable_update() {
    assert!(!bucket_applies(Bucket::Create, true));
    assert!(!bucket_applies(Bucket::Enable, true));
    assert!(!bucket_applies(Bucket::Update, true));
    assert!(bucket_applies(Bucket::Disable, true));
    assert!(bucket_applies(Bucket::Delete, true));
    assert!(bucket_applies(Bucket::Create, false));
    assert!(bucket_applies(Bucket::Update, false));
}

#[test]
fn feature_flags_report_membership() {
    let f = flags(vec![FeatureFlag::DryRun, FeatureFlag::SsoLogin]);
    assert!(f.is_enabled(FeatureFlag::DryRun));
    assert!(f.is_enabled(FeatureFlag::SsoLogin));
    assert!(!f.is_enabled(FeatureFlag::DeactivateOnly));
    assert!(!flags(vec![]).is_enabled(FeatureFlag::DryRun));
}

#[test]
fn csv_rows_become_enabled_users_keyed_by_email() {
    let row = CsvData {
        email: "john.doe@example.com".to_owned(),
        first_name: "John".to_owned(),
        last_name: "Doe".to_owned(),
        phone: "+1111111111".to_owned(),
    };
    let u = CsvData::to_user(row);
    assert_eq!(u.email, text("john.doe@example.com"));
    assert_eq!(u.first_name, text("John"));
    assert_eq!(u.last_name, text("Doe"));
    assert_eq!(u.phone, Some(text("+1111111111")));
    assert_eq!(u.preferred_username, text("john.doe@example.com"));
    assert_eq!(u.external_user_id, text("john.doe@example.com"));
    assert!(u.enabled);

    let empty_phone = CsvData {
        email: "alice.johnson@example.com".to_owned(),
        first_name: "Alice".to_owned(),
        last_name: "Johnson".to_owned(),
        phone: "".to_owned(),
    };
    assert_eq!(CsvData::to_user(empty_phone).phone, None);

    let diff = users_to_diff(vec![u]);
    assert_eq!(diff.new_users.len(), 1);
    assert_eq!(diff.changed_users.len(), 0);
    assert_eq!(diff.deleted_user_ids.len(), 0);
}

#[test]
fn removed_emails_become_login_deletions() {
    let diff = removed_emails_to_diff(vec!["delete@famedly.de".to_owned()]);
    assert_eq!(diff.new_users.len(), 0);
    assert_eq!(diff.changed_users.len(), 0);
    assert_eq!(diff.deleted_user_ids.len(), 1);
    assert!(matches!(&diff.deleted_user_ids[0], UserId::Login(e) if e == "delete@famedly.de"));
}

#[test]
fn empty_diff_classifies_to_empty_buckets() {
    let classified = classify(empty_diff());
    assert_eq!(classified.create.len(), 0);
    assert_eq!(classified.disable.len(), 0);
    assert_eq!(classified.enable.len(), 0);
    assert_eq!(classified.update.len(), 0);
    assert_eq!(classified.delete.len(), 0);
}
