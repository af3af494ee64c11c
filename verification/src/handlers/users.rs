//! The users resource: listing, looking up and creating users.
//!
//! No store stands behind these operations yet: the list is empty and no
//! identifier is found. Creating a user checks the request and builds the
//! user that a store would be handed.

use crate::errors::{AppError, AppErrorView, CREATED};
use crate::text::contains_char;
use crate::user_id::{hyphenated_text, is_version_4, UserId};
use vstd::prelude::*;
use vstd::string::StringExecFns;

verus! {

/// A user.
#[derive(Debug)]
pub struct User {
    pub id: UserId,
    pub name: String,
    pub email: String,
}

impl Clone for User {
    fn clone(&self) -> (copy: Self)
        ensures
            copy == *self,
    {
        User { id: self.id, name: self.name.clone(), email: self.email.clone() }
    }
}

/// The mathematical value of a `User`.
pub struct UserView {
    pub id: u128,
    pub name: Seq<char>,
    pub email: Seq<char>,
}

impl View for User {
    type V = UserView;

    open spec fn view(&self) -> UserView {
        UserView { id: self.id.bits, name: self.name@, email: self.email@ }
    }
}

/// What a client sends to have a user created. Nothing is known of it until
/// it has been validated.
#[derive(Debug)]
pub struct CreateUserRequest {
    pub name: String,
    pub email: String,
}

/// The name of a user is not empty.
pub open spec fn name_is_valid(name: Seq<char>) -> bool {
    name.len() > 0
}

/// The email address of a user holds an `@`.
pub open spec fn email_is_valid(email: Seq<char>) -> bool {
    email.contains('@')
}

impl UserView {
    /// The invariant of a user.
    pub open spec fn wf(self) -> bool {
        name_is_valid(self.name) && email_is_valid(self.email)
    }
}

/// The detail of the error for an identifier that no user has.
pub open spec fn not_found_detail(id: u128) -> Seq<char> {
    "User "@ + hyphenated_text(id) + " not found"@
}

/// All users. There are none.
pub fn list_users() -> (r: Result<Vec<User>, AppError>)
    ensures
        r matches Ok(users) && users@.len() == 0,
{
    let users: Vec<User> = Vec::new();
    Ok(users)
}

/// The user with the identifier `id`. There is none, so the answer is the
/// error that names the identifier.
pub fn get_user(id: UserId) -> (r: Result<User, AppError>)
    ensures
        r matches Err(e) && e@ == AppErrorView::NotFound(not_found_detail(id.bits)),
{
    let text = id.hyphenated();
    let detail = String::from_str("User ").concat(text.as_str()).concat(" not found");
    Err(AppError::NotFound(detail))
}

impl CreateUserRequest {
    /// Checks the request: first the name, then the email address. The first
    /// rule that is broken gives the error.
    pub fn validate(&self) -> (r: Result<(), AppError>)
        ensures
            !name_is_valid(self.name@) ==> (r matches Err(e) && e@ == AppErrorView::Validation(
                "name cannot be empty"@,
            )),
            name_is_valid(self.name@) && !email_is_valid(self.email@) ==> (r matches Err(e) && e@
                == AppErrorView::Validation("invalid email address"@)),
            name_is_valid(self.name@) && email_is_valid(self.email@) ==> r is Ok,
    {
        if self.name.as_str().is_empty() {
            return Err(AppError::Validation(String::from_str("name cannot be empty")));
        }
        if !contains_char(self.email.as_str(), '@') {
            return Err(AppError::Validation(String::from_str("invalid email address")));
        }
        Ok(())
    }
}

/// The answer to a valid request once its user has been given the
/// identifier `id`: the status of a created resource, and the user with the
/// name and the email address of the request.
pub fn created_user(payload: CreateUserRequest, id: UserId) -> (r: (u16, User))
    requires
        name_is_valid(payload.name@),
        email_is_valid(payload.email@),
    ensures
        r.0 == CREATED,
        r.1@ == (UserView { id: id.bits, name: payload.name@, email: payload.email@ }),
        r.1@.wf(),
{
    (CREATED, User { id, name: payload.name, email: payload.email })
}

/// Creates a user from a request.
///
/// A request with an empty name is rejected, whatever its email address; one
/// with a name and an email address without `@` is rejected next. Any other
/// request gives a user with that name and that email address, under an
/// identifier drawn at random.
pub fn create_user(payload: CreateUserRequest) -> (r: Result<(u16, User), AppError>)
    ensures
        payload.name@.len() == 0 ==> (r matches Err(e) && e@ == AppErrorView::Validation(
            "name cannot be empty"@,
        )),
        payload.name@.len() > 0 && !payload.email@.contains('@') ==> (r matches Err(e) && e@
            == AppErrorView::Validation("invalid email address"@)),
        payload.name@.len() > 0 && payload.email@.contains('@') ==> (r matches Ok((status, user))
            && status == CREATED && user@.name == payload.name@ && user@.email == payload.email@
            && is_version_4(user@.id) && user@.wf()),
{
    match payload.validate() {
        Err(e) => Err(e),
        Ok(()) => {
            let id = UserId::random();
            Ok(created_user(payload, id))
        },
    }
}

/// The detail of the error for an unknown identifier holds the text form of
/// the identifier, right after the word `User` and a space.
pub proof fn lemma_not_found_detail_holds_the_id(id: u128)
    ensures
        not_found_detail(id).subrange(5, 41) == hyphenated_text(id),
{
    reveal_strlit("User ");
    assert(not_found_detail(id).subrange(5, 41) =~= hyphenated_text(id));
}

} // verus!
