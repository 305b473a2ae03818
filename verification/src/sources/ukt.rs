//! Normalization of the HTTP disable-list source's output.

use vstd::prelude::*;

use crate::zitadel::{SourceDiff, UserId, UserIdView};

verus! {

/// Shape the list of removed user emails that the disable-list endpoint
/// reports into a source diff: each email becomes a deletion by login name;
/// the source never reports new or changed users.
pub fn removed_emails_to_diff(emails: Vec<String>) -> (d: SourceDiff)
    ensures
        d.new_users@.len() == 0,
        d.changed_users@.len() == 0,
        d.deleted_user_ids@.len() == emails@.len(),
        forall|i: int|
            0 <= i < emails@.len() ==> d.deleted_user_ids@[i]@ == UserIdView::Login(
                emails@[i]@,
            ),
{
    let n = emails.len();
    let mut deleted_user_ids: Vec<UserId> = Vec::new();
    let mut i: usize = 0;
    while i < n
        invariant
            n == emails@.len(),
            0 <= i <= n,
            deleted_user_ids@.len() == i,
            forall|j: int|
                0 <= j < i ==> deleted_user_ids@[j]@ == UserIdView::Login(emails@[j]@),
        decreases n - i,
    {
        deleted_user_ids.push(UserId::Login(emails[i].clone()));
        i = i + 1;
    }
    SourceDiff { new_users: Vec::new(), changed_users: Vec::new(), deleted_user_ids }
}

} // verus!
