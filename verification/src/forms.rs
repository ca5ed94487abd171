//! What the site's forms, queries and paths carry.
use vstd::prelude::*;
use std::collections::HashMap;

verus! {

#[verifier::external_type_specification]
#[verifier::external_body]
pub struct ExJsonValue(serde_json::Value);

/// The sign-up form.
#[derive(Debug, Clone)]
pub struct SignUpForm {
    pub username: String,
    pub password: String,
    pub password_confirmation: String,
    /// The token of the robot check, sent as `cf-turnstile-response`.
    pub turnstile_response: String,
}

/// The form that finishes a sign-up through a provider.
#[derive(Debug, Clone)]
pub struct FinishSignupForm {
    pub username: String,
    /// The token of the robot check, sent as `cf-turnstile-response`.
    pub turnstile_response: String,
}

/// The member an admin adds to a book.
#[derive(Debug, Clone)]
pub struct AddUserParams {
    pub user_id: i32,
    pub username: String,
}

/// The name an admin searches for.
#[derive(Debug, Clone)]
pub struct UserSearchParams {
    pub username: String,
}

/// The member an admin removes from a book.
#[derive(Debug, Clone)]
pub struct RemoveUserForm {
    pub user_id: i32,
}

/// The path of a chapter's pages.
#[derive(Debug, Clone)]
pub struct ChapterIdPath {
    pub book_id: i32,
    pub chapter_id: i32,
}

/// The query of the redirect back from the Google login.
#[derive(Debug, Clone)]
pub struct GoogleAuthRequest {
    pub code: String,
}

/// The profile Google returns: the subject and every other field as JSON.
#[derive(Debug, Clone)]
pub struct GoogleOauth {
    pub sub: String,
    pub extra: HashMap<String, serde_json::Value>,
}

/// A stored login profile, by provider.
#[derive(Debug)]
pub enum OauthProfile {
    Google(GoogleOauth),
}

} // verus!
