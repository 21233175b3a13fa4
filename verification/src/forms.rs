//! The access rules of forms, their questions, responses and share links.
//! Reading and writing the rows is the caller's business; these functions
//! decide what a row that was read allows.

use vstd::prelude::*;
use vstd::string::StringExecFns;
use crate::auth::AuthUser;
use crate::error::{reported, AppError, AppErrorView};
use crate::models::{Form, FormShare};

verus! {

/// A kind of row that a request can fail to find.
#[derive(Clone, Copy, Debug, PartialEq, Eq, Structural)]
pub enum Resource {
    Form,
    Element,
    Share,
}

impl Resource {
    /// What a client is told when the row is absent, or not theirs: the same
    /// in both cases, so that nobody learns of rows of others.
    pub open spec fn absence(self) -> AppErrorView {
        match self {
            Resource::Form => AppErrorView::NotFound("Form not found"@),
            Resource::Element => AppErrorView::NotFound("Element not found"@),
            Resource::Share => AppErrorView::NotFound("Share not found"@),
        }
    }

    /// The failure that reports the row as not found.
    pub fn not_found(&self) -> (error: AppError)
        ensures
            error@ == self.absence(),
    {
        match self {
            Resource::Form => AppError::NotFound(String::from_str("Form not found")),
            Resource::Element => AppError::NotFound(String::from_str("Element not found")),
            Resource::Share => AppError::NotFound(String::from_str("Share not found")),
        }
    }
}

/// The row that a lookup gave, or the failure that reports it as not found.
pub fn require_found<T>(row: Option<T>, resource: Resource) -> (found: Result<T, AppError>)
    ensures
        reported(found) == (match row {
            Some(value) => Ok::<T, AppErrorView>(value),
            None => Err::<T, AppErrorView>(resource.absence()),
        }),
{
    match row {
        Some(value) => Ok(value),
        None => Err(resource.not_found()),
    }
}

/// Judges a deletion or an update by the number of rows that it touched:
/// none means that the row is absent or not the caller's.
pub fn require_affected(rows_affected: u64, resource: Resource) -> (done: Result<(), AppError>)
    ensures
        reported(done) == (if rows_affected == 0 {
            Err::<(), AppErrorView>(resource.absence())
        } else {
            Ok::<(), AppErrorView>(())
        }),
{
    if rows_affected == 0 {
        Err(resource.not_found())
    } else {
        Ok(())
    }
}

impl Form {
    /// Whether the user may change the form, its questions and its share
    /// links, and read its responses: only the owner may.
    pub open spec fn owned_by(self, user_id: u128) -> bool {
        self.user_id == user_id
    }

    /// Whether the user may read the form and its questions: the owner may,
    /// and everybody may read a public form.
    pub open spec fn readable_by(self, user_id: u128) -> bool {
        self.user_id == user_id || self.is_public
    }

    /// Whether `auth_user` owns the form.
    pub fn is_owned_by(&self, auth_user: &AuthUser) -> (yes: bool)
        ensures
            yes == self.owned_by(auth_user.user_id),
    {
        self.user_id == auth_user.user_id
    }

    /// Whether `auth_user` may read the form.
    pub fn is_readable_by(&self, auth_user: &AuthUser) -> (yes: bool)
        ensures
            yes == self.readable_by(auth_user.user_id),
    {
        self.user_id == auth_user.user_id || self.is_public
    }

    /// Decides who a response is recorded for. A form that allows anonymous
    /// responses takes a response from anybody; any other form only from an
    /// authenticated user, and refuses the rest with the authorization
    /// failure. The respondent is the authenticated user, if there is one.
    pub fn respondent(&self, auth_user: Option<AuthUser>) -> (who: Result<Option<u128>, AppError>)
        ensures
            reported(who) == (if !self.allow_anonymous && auth_user.is_none() {
                Err::<Option<u128>, AppErrorView>(AppErrorView::AuthorizationError)
            } else {
                Ok::<Option<u128>, AppErrorView>(
                    match auth_user {
                        Some(user) => Some(user.user_id),
                        None => None,
                    },
                )
            }),
    {
        match auth_user {
            Some(user) => Ok(Some(user.user_id)),
            None => if self.allow_anonymous {
                Ok(None)
            } else {
                Err(AppError::AuthorizationError)
            },
        }
    }
}

/// What a request on a form comes to that only its owner may make, given the
/// form as it was found, if it was: the form for its owner, and not found
/// for everybody else, whether the form exists or not and whether it is
/// public or not.
pub open spec fn owner_access(row: Option<Form>, user_id: u128) -> Result<Form, AppErrorView> {
    match row {
        Some(form) => if form.owned_by(user_id) {
            Ok(form)
        } else {
            Err(Resource::Form.absence())
        },
        None => Err(Resource::Form.absence()),
    }
}

/// What a request to read a form comes to, given the form as it was found,
/// if it was: the form for whoever may read it, and not found otherwise.
pub open spec fn reader_access(row: Option<Form>, user_id: u128) -> Result<Form, AppErrorView> {
    match row {
        Some(form) => if form.readable_by(user_id) {
            Ok(form)
        } else {
            Err(Resource::Form.absence())
        },
        None => Err(Resource::Form.absence()),
    }
}

/// The form for a request that only its owner may make. An absent form and
/// the form of another user are refused alike.
pub fn require_owned(row: Option<Form>, auth_user: &AuthUser) -> (found: Result<Form, AppError>)
    ensures
        reported(found) == owner_access(row, auth_user.user_id),
{
    match row {
        Some(form) => if form.is_owned_by(auth_user) {
            Ok(form)
        } else {
            Err(Resource::Form.not_found())
        },
        None => Err(Resource::Form.not_found()),
    }
}

/// The form for a request to read it. An absent form and a form that the
/// user may not read are refused alike.
pub fn require_readable(row: Option<Form>, auth_user: &AuthUser) -> (found: Result<Form, AppError>)
    ensures
        reported(found) == reader_access(row, auth_user.user_id),
{
    match row {
        Some(form) => if form.is_readable_by(auth_user) {
            Ok(form)
        } else {
            Err(Resource::Form.not_found())
        },
        None => Err(Resource::Form.not_found()),
    }
}

/// To somebody who does not own a form, the answer to an owner's request
/// does not tell whether the form exists.
pub proof fn law_absence_hides_existence(form: Form, user_id: u128)
    requires
        !form.owned_by(user_id),
    ensures
        owner_access(Some(form), user_id) == owner_access(None, user_id),
        owner_access(None, user_id) == Err::<Form, AppErrorView>(
            AppErrorView::NotFound("Form not found"@),
        ),
{
}

impl FormShare {
    /// Whether the link is live at `now`: a link without an end always is,
    /// and one with an end is until that instant.
    pub open spec fn live_at(self, now: i64) -> bool {
        match self.expires_at {
            Some(end) => end > now,
            None => true,
        }
    }

    /// Whether the link is live at `now`.
    pub fn is_live(&self, now: i64) -> (yes: bool)
        ensures
            yes == self.live_at(now),
    {
        match self.expires_at {
            Some(end) => end > now,
            None => true,
        }
    }
}

} // verus!
