//! Normalization of CSV rows into canonical users.

use vstd::prelude::*;

use crate::user::{StringOrBytes, User, ValueView};
use crate::zitadel::SourceDiff;

verus! {

/// Configuration to get a list of users from a CSV file.
#[derive(Debug)]
pub struct CsvSourceConfig {
    /// The path to the CSV file.
    pub file_path: String,
}

impl Clone for CsvSourceConfig {
    fn clone(&self) -> (r: Self)
        ensures
            r.file_path@ == self.file_path@,
    {
        CsvSourceConfig { file_path: self.file_path.clone() }
    }
}

/// CSV source: a file of new users, one row each.
#[derive(Debug)]
pub struct CsvSource {
    /// CSV source configuration.
    pub csv_config: CsvSourceConfig,
}

impl CsvSource {
    /// Create a new CSV source.
    pub fn new(csv_config: CsvSourceConfig) -> (r: Self)
        ensures
            r.csv_config.file_path@ == csv_config.file_path@,
    {
        Self { csv_config }
    }
}

/// One row of the CSV file.
#[derive(Debug)]
pub struct CsvData {
    /// The user's email address.
    pub email: String,
    /// The user's first name.
    pub first_name: String,
    /// The user's last name.
    pub last_name: String,
    /// The user's phone number; an empty field means none.
    pub phone: String,
}

impl CsvData {
    /// Convert one CSV row to a canonical user.
    ///
    /// The email address doubles as the preferred username and as the
    /// external user id; a row never describes a disabled user.
    pub fn to_user(csv_data: CsvData) -> (u: User)
        ensures
            u@.email == ValueView::Text(csv_data.email@),
            u@.first_name == ValueView::Text(csv_data.first_name@),
            u@.last_name == ValueView::Text(csv_data.last_name@),
            u@.phone == if csv_data.phone@.len() == 0 {
                None::<ValueView>
            } else {
                Some(ValueView::Text(csv_data.phone@))
            },
            u@.preferred_username == ValueView::Text(csv_data.email@),
            u@.external_user_id == ValueView::Text(csv_data.email@),
            u@.enabled,
    {
        let phone = if csv_data.phone.as_str().is_empty() {
            None
        } else {
            Some(StringOrBytes::Text(csv_data.phone))
        };
        User {
            email: StringOrBytes::Text(csv_data.email.clone()),
            first_name: StringOrBytes::Text(csv_data.first_name),
            last_name: StringOrBytes::Text(csv_data.last_name),
            phone,
            preferred_username: StringOrBytes::Text(csv_data.email.clone()),
            external_user_id: StringOrBytes::Text(csv_data.email),
            enabled: true,
        }
    }
}

/// Shape a list of new users into a source diff: a CSV file reports no
/// changed and no deleted users.
pub fn users_to_diff(users: Vec<User>) -> (d: SourceDiff)
    ensures
        d.new_users@ == users@,
        d.changed_users@.len() == 0,
        d.deleted_user_ids@.len() == 0,
{
    SourceDiff { new_users: users, changed_users: Vec::new(), deleted_user_ids: Vec::new() }
}

} // verus!
