//! The backend's HTTP API as data: which method and URL each call uses,
//! whether it carries the access token, and how its JSON reply
//! (`success`, `data`, `message`) becomes the result shown to the user.
//! Sending requests and (de)serialising JSON happen outside this crate.

use vstd::prelude::*;
use vstd::string::*;
use base64::Engine;
use crate::text::{chars_of, decimal_text, find_char, lemma_split_once_at, push_decimal, split_once};

verus! {

/// Where the backend listens.
pub const API_BASE_URL: &'static str = "http://localhost:3000";

/// The claims carried by the access token, decoded client-side purely for
/// display (the backend is the one verifying the signature on every
/// protected request).
#[derive(Debug, Clone)]
pub struct Claims {
    pub user_id: i64,
    pub username: String,
    pub is_admin: bool,
}

#[derive(Debug, Clone)]
pub struct User {
    pub id: i64,
    pub username: String,
    pub email: String,
}

/// A question to learn; `current_step_id` is the review step it sits at and
/// `next_review_date` an RFC 3339 timestamp.
#[derive(Debug, Clone, PartialEq)]
pub struct Question {
    pub id: i64,
    pub title: String,
    pub answer: String,
    pub category_id: i64,
    pub current_step_id: i64,
    pub next_review_date: String,
    pub is_archived: bool,
}

#[derive(Debug, Clone, PartialEq)]
pub struct Category {
    pub id: i64,
    pub title: String,
    pub color_code: String,
}

/// A review step: questions answered correctly move to the step of the
/// next `step_order`, `spacing_days` later.
#[derive(Debug, Clone, PartialEq)]
pub struct Step {
    pub id: i64,
    pub title: String,
    pub step_order: i64,
    pub spacing_days: i64,
    pub color_code: String,
}

#[derive(Clone, Copy, Debug, PartialEq, Eq, Structural)]
pub enum Method {
    Get,
    Post,
    Put,
    Patch,
    Delete,
}

/// How a call's reply is read.
#[derive(Clone, Copy, Debug, PartialEq, Eq, Structural)]
pub enum ReplyKind {
    /// The result is a message: the server's, or a default one.
    Message,
    /// The result is the reply's `data`, which must be present.
    Data,
    /// The result is the list in `data`, empty where it is absent.
    List,
    /// Success carries nothing.
    Done,
}

/// The calls the client makes to the backend.
#[derive(Clone, Copy, Debug, PartialEq, Eq, Structural)]
pub enum Endpoint {
    /// `POST /auth/login`: answers with an access token.
    Login,
    /// `POST /auth/register`: creates an account.
    Register,
    /// `POST /auth/verify-email`: confirms an email with its token.
    VerifyEmail,
    /// `POST /auth/resend-verification`.
    ResendVerification,
    /// `POST /auth/forgot-password`: mails a reset link.
    ForgotPassword,
    /// `POST /auth/reset-password`: sets a new password with a reset token.
    ResetPassword,
    /// `POST /auth/refresh`: a new access token from the refresh cookie.
    Refresh,
    /// `POST /auth/logout`: revokes the refresh cookie.
    Logout,
    /// `GET /users/{id}`.
    GetUser(i64),
    /// `GET /questions/user/{user_id}?is_archived={archived}`, with `&status=todo` to keep only questions due today or overdue.
    GetMyQuestions { user_id: i64, archived: bool, due_only: bool },
    /// `POST /questions`.
    CreateQuestion,
    /// `PUT /questions/{id}`.
    UpdateQuestion(i64),
    /// `DELETE /questions/{id}`.
    DeleteQuestion(i64),
    /// `GET /categories/user/{user_id}`.
    GetMyCategories(i64),
    /// `POST /categories`.
    CreateCategory,
    /// `PUT /categories/{id}`.
    UpdateCategory(i64),
    /// `DELETE /categories/{id}`.
    DeleteCategory(i64),
    /// `GET /steps/user/{user_id}`.
    GetMySteps(i64),
    /// `POST /steps`.
    CreateStep,
    /// `PUT /steps/{id}`.
    UpdateStep(i64),
    /// `DELETE /steps/{id}`.
    DeleteStep(i64),
    /// `POST /answers`: records an answer and returns its id.
    CreateAnswer,
    /// `PATCH /answers/{id}/correct`: moves the question to its next step.
    MarkAnswerCorrect(i64),
    /// `PATCH /answers/{id}/error`: resets the question to the first step.
    MarkAnswerIncorrect(i64),
    /// `PUT /users/{id}` with a new username and email.
    UpdateProfile(i64),
    /// `PUT /users/{id}` with a new password.
    ChangePassword(i64),
    /// `DELETE /users/{id}`.
    DeleteUser(i64),
}

pub open spec fn endpoint_method(e: Endpoint) -> Method {
    match e {
        Endpoint::Login => Method::Post,
        Endpoint::Register => Method::Post,
        Endpoint::VerifyEmail => Method::Post,
        Endpoint::ResendVerification => Method::Post,
        Endpoint::ForgotPassword => Method::Post,
        Endpoint::ResetPassword => Method::Post,
        Endpoint::Refresh => Method::Post,
        Endpoint::Logout => Method::Post,
        Endpoint::GetUser(_) => Method::Get,
        Endpoint::GetMyQuestions { .. } => Method::Get,
        Endpoint::CreateQuestion => Method::Post,
        Endpoint::UpdateQuestion(_) => Method::Put,
        Endpoint::DeleteQuestion(_) => Method::Delete,
        Endpoint::GetMyCategories(_) => Method::Get,
        Endpoint::CreateCategory => Method::Post,
        Endpoint::UpdateCategory(_) => Method::Put,
        Endpoint::DeleteCategory(_) => Method::Delete,
        Endpoint::GetMySteps(_) => Method::Get,
        Endpoint::CreateStep => Method::Post,
        Endpoint::UpdateStep(_) => Method::Put,
        Endpoint::DeleteStep(_) => Method::Delete,
        Endpoint::CreateAnswer => Method::Post,
        Endpoint::MarkAnswerCorrect(_) => Method::Patch,
        Endpoint::MarkAnswerIncorrect(_) => Method::Patch,
        Endpoint::UpdateProfile(_) => Method::Put,
        Endpoint::ChangePassword(_) => Method::Put,
        Endpoint::DeleteUser(_) => Method::Delete,
    }
}

/// Whether the call carries the access token as a bearer token.
pub open spec fn endpoint_needs_token(e: Endpoint) -> bool {
    match e {
        Endpoint::Login => false,
        Endpoint::Register => false,
        Endpoint::VerifyEmail => false,
        Endpoint::ResendVerification => false,
        Endpoint::ForgotPassword => false,
        Endpoint::ResetPassword => false,
        Endpoint::Refresh => false,
        Endpoint::Logout => false,
        Endpoint::GetUser(_) => true,
        Endpoint::GetMyQuestions { .. } => true,
        Endpoint::CreateQuestion => true,
        Endpoint::UpdateQuestion(_) => true,
        Endpoint::DeleteQuestion(_) => true,
        Endpoint::GetMyCategories(_) => true,
        Endpoint::CreateCategory => true,
        Endpoint::UpdateCategory(_) => true,
        Endpoint::DeleteCategory(_) => true,
        Endpoint::GetMySteps(_) => true,
        Endpoint::CreateStep => true,
        Endpoint::UpdateStep(_) => true,
        Endpoint::DeleteStep(_) => true,
        Endpoint::CreateAnswer => true,
        Endpoint::MarkAnswerCorrect(_) => true,
        Endpoint::MarkAnswerIncorrect(_) => true,
        Endpoint::UpdateProfile(_) => true,
        Endpoint::ChangePassword(_) => true,
        Endpoint::DeleteUser(_) => true,
    }
}

pub open spec fn reply_kind(e: Endpoint) -> ReplyKind {
    match e {
        Endpoint::Login => ReplyKind::Data,
        Endpoint::Register => ReplyKind::Message,
        Endpoint::VerifyEmail => ReplyKind::Message,
        Endpoint::ResendVerification => ReplyKind::Message,
        Endpoint::ForgotPassword => ReplyKind::Message,
        Endpoint::ResetPassword => ReplyKind::Message,
        Endpoint::Refresh => ReplyKind::Data,
        Endpoint::Logout => ReplyKind::Done,
        Endpoint::GetUser(_) => ReplyKind::Data,
        Endpoint::GetMyQuestions { .. } => ReplyKind::List,
        Endpoint::CreateQuestion => ReplyKind::Message,
        Endpoint::UpdateQuestion(_) => ReplyKind::Message,
        Endpoint::DeleteQuestion(_) => ReplyKind::Message,
        Endpoint::GetMyCategories(_) => ReplyKind::List,
        Endpoint::CreateCategory => ReplyKind::Message,
        Endpoint::UpdateCategory(_) => ReplyKind::Message,
        Endpoint::DeleteCategory(_) => ReplyKind::Message,
        Endpoint::GetMySteps(_) => ReplyKind::List,
        Endpoint::CreateStep => ReplyKind::Message,
        Endpoint::UpdateStep(_) => ReplyKind::Message,
        Endpoint::DeleteStep(_) => ReplyKind::Message,
        Endpoint::CreateAnswer => ReplyKind::Data,
        Endpoint::MarkAnswerCorrect(_) => ReplyKind::Message,
        Endpoint::MarkAnswerIncorrect(_) => ReplyKind::Message,
        Endpoint::UpdateProfile(_) => ReplyKind::Message,
        Endpoint::ChangePassword(_) => ReplyKind::Message,
        Endpoint::DeleteUser(_) => ReplyKind::Message,
    }
}

/// The message shown after success where the server sends none.
pub open spec fn success_text(e: Endpoint) -> Option<Seq<char>> {
    match e {
        Endpoint::Login => None,
        Endpoint::Register => Some("Account created successfully."@),
        Endpoint::VerifyEmail => Some("Email verified."@),
        Endpoint::ResendVerification => Some("If this email is registered and not yet verified, a new verification link has been sent."@),
        Endpoint::ForgotPassword => Some("If this email is registered, a password reset link has been sent."@),
        Endpoint::ResetPassword => Some("Password reset successfully."@),
        Endpoint::Refresh => None,
        Endpoint::Logout => None,
        Endpoint::GetUser(_) => None,
        Endpoint::GetMyQuestions { .. } => None,
        Endpoint::CreateQuestion => Some("Question recorded successfully."@),
        Endpoint::UpdateQuestion(_) => Some("Question updated successfully."@),
        Endpoint::DeleteQuestion(_) => Some("Question deleted successfully."@),
        Endpoint::GetMyCategories(_) => None,
        Endpoint::CreateCategory => Some("Category recorded successfully."@),
        Endpoint::UpdateCategory(_) => Some("Category updated successfully."@),
        Endpoint::DeleteCategory(_) => Some("Category deleted successfully."@),
        Endpoint::GetMySteps(_) => None,
        Endpoint::CreateStep => Some("Step recorded successfully."@),
        Endpoint::UpdateStep(_) => Some("Step updated successfully."@),
        Endpoint::DeleteStep(_) => Some("Step deleted successfully."@),
        Endpoint::CreateAnswer => None,
        Endpoint::MarkAnswerCorrect(_) => Some("Correct answer! Question moved to the next step."@),
        Endpoint::MarkAnswerIncorrect(_) => Some("Incorrect answer. Question reset to the first step."@),
        Endpoint::UpdateProfile(_) => Some("Profile updated successfully."@),
        Endpoint::ChangePassword(_) => Some("Password changed successfully."@),
        Endpoint::DeleteUser(_) => Some("Account deleted successfully."@),
    }
}

/// The message shown after a failure where the server sends none.
pub open spec fn failure_text(e: Endpoint) -> Seq<char> {
    match e {
        Endpoint::Login => "Invalid credentials"@,
        Endpoint::Register => "Unable to create the account"@,
        Endpoint::VerifyEmail => "Unable to verify this email"@,
        Endpoint::ResendVerification => "Unable to resend the verification email"@,
        Endpoint::ForgotPassword => "Unable to request a password reset"@,
        Endpoint::ResetPassword => "Unable to reset the password"@,
        Endpoint::Refresh => "Unable to restore the session"@,
        Endpoint::Logout => "Unable to log out"@,
        Endpoint::GetUser(_) => "Unable to fetch the user"@,
        Endpoint::GetMyQuestions { .. } => "Unable to fetch questions"@,
        Endpoint::CreateQuestion => "Unable to create the question"@,
        Endpoint::UpdateQuestion(_) => "Unable to update the question"@,
        Endpoint::DeleteQuestion(_) => "Unable to delete the question"@,
        Endpoint::GetMyCategories(_) => "Unable to fetch categories"@,
        Endpoint::CreateCategory => "Unable to create the category"@,
        Endpoint::UpdateCategory(_) => "Unable to update the category"@,
        Endpoint::DeleteCategory(_) => "Unable to delete the category"@,
        Endpoint::GetMySteps(_) => "Unable to fetch steps"@,
        Endpoint::CreateStep => "Unable to create the step"@,
        Endpoint::UpdateStep(_) => "Unable to update the step"@,
        Endpoint::DeleteStep(_) => "Unable to delete the step"@,
        Endpoint::CreateAnswer => "Unable to record the answer"@,
        Endpoint::MarkAnswerCorrect(_) => "Unable to record the result"@,
        Endpoint::MarkAnswerIncorrect(_) => "Unable to record the result"@,
        Endpoint::UpdateProfile(_) => "Unable to update the profile"@,
        Endpoint::ChangePassword(_) => "Unable to change the password"@,
        Endpoint::DeleteUser(_) => "Unable to delete the account"@,
    }
}

pub open spec fn bool_text(b: bool) -> Seq<char> {
    if b {
        "true"@
    } else {
        "false"@
    }
}

/// The path of the call's URL, after the base URL.
pub open spec fn endpoint_path(e: Endpoint) -> Seq<char> {
    match e {
        Endpoint::Login => "/auth/login"@,
        Endpoint::Register => "/auth/register"@,
        Endpoint::VerifyEmail => "/auth/verify-email"@,
        Endpoint::ResendVerification => "/auth/resend-verification"@,
        Endpoint::ForgotPassword => "/auth/forgot-password"@,
        Endpoint::ResetPassword => "/auth/reset-password"@,
        Endpoint::Refresh => "/auth/refresh"@,
        Endpoint::Logout => "/auth/logout"@,
        Endpoint::GetUser(id) => "/users/"@ + decimal_text(id as int),
        Endpoint::GetMyQuestions { user_id, archived, due_only } => "/questions/user/"@ + decimal_text(user_id as int) + "?is_archived="@
            + bool_text(archived) + if due_only {
            "&status=todo"@
        } else {
            Seq::empty()
        },
        Endpoint::CreateQuestion => "/questions"@,
        Endpoint::UpdateQuestion(id) => "/questions/"@ + decimal_text(id as int),
        Endpoint::DeleteQuestion(id) => "/questions/"@ + decimal_text(id as int),
        Endpoint::GetMyCategories(id) => "/categories/user/"@ + decimal_text(id as int),
        Endpoint::CreateCategory => "/categories"@,
        Endpoint::UpdateCategory(id) => "/categories/"@ + decimal_text(id as int),
        Endpoint::DeleteCategory(id) => "/categories/"@ + decimal_text(id as int),
        Endpoint::GetMySteps(id) => "/steps/user/"@ + decimal_text(id as int),
        Endpoint::CreateStep => "/steps"@,
        Endpoint::UpdateStep(id) => "/steps/"@ + decimal_text(id as int),
        Endpoint::DeleteStep(id) => "/steps/"@ + decimal_text(id as int),
        Endpoint::CreateAnswer => "/answers"@,
        Endpoint::MarkAnswerCorrect(id) => "/answers/"@ + decimal_text(id as int) + "/correct"@,
        Endpoint::MarkAnswerIncorrect(id) => "/answers/"@ + decimal_text(id as int) + "/error"@,
        Endpoint::UpdateProfile(id) => "/users/"@ + decimal_text(id as int),
        Endpoint::ChangePassword(id) => "/users/"@ + decimal_text(id as int),
        Endpoint::DeleteUser(id) => "/users/"@ + decimal_text(id as int),
    }
}

fn push_bool(out: &mut String, b: bool)
    ensures
        final(out)@ == old(out)@ + bool_text(b),
{
    if b {
        out.append("true");
    } else {
        out.append("false");
    }
}

impl Endpoint {
    pub fn method(&self) -> (r: Method)
        ensures
            r == endpoint_method(*self),
    {
        match self {
            Endpoint::Login => Method::Post,
            Endpoint::Register => Method::Post,
            Endpoint::VerifyEmail => Method::Post,
            Endpoint::ResendVerification => Method::Post,
            Endpoint::ForgotPassword => Method::Post,
            Endpoint::ResetPassword => Method::Post,
            Endpoint::Refresh => Method::Post,
            Endpoint::Logout => Method::Post,
            Endpoint::GetUser(_) => Method::Get,
            Endpoint::GetMyQuestions { .. } => Method::Get,
            Endpoint::CreateQuestion => Method::Post,
            Endpoint::UpdateQuestion(_) => Method::Put,
            Endpoint::DeleteQuestion(_) => Method::Delete,
            Endpoint::GetMyCategories(_) => Method::Get,
            Endpoint::CreateCategory => Method::Post,
            Endpoint::UpdateCategory(_) => Method::Put,
            Endpoint::DeleteCategory(_) => Method::Delete,
            Endpoint::GetMySteps(_) => Method::Get,
            Endpoint::CreateStep => Method::Post,
            Endpoint::UpdateStep(_) => Method::Put,
            Endpoint::DeleteStep(_) => Method::Delete,
            Endpoint::CreateAnswer => Method::Post,
            Endpoint::MarkAnswerCorrect(_) => Method::Patch,
            Endpoint::MarkAnswerIncorrect(_) => Method::Patch,
            Endpoint::UpdateProfile(_) => Method::Put,
            Endpoint::ChangePassword(_) => Method::Put,
            Endpoint::DeleteUser(_) => Method::Delete,
        }
    }

    /// Whether the call carries the access token.
    pub fn needs_token(&self) -> (r: bool)
        ensures
            r == endpoint_needs_token(*self),
    {
        match self {
            Endpoint::Login => false,
            Endpoint::Register => false,
            Endpoint::VerifyEmail => false,
            Endpoint::ResendVerification => false,
            Endpoint::ForgotPassword => false,
            Endpoint::ResetPassword => false,
            Endpoint::Refresh => false,
            Endpoint::Logout => false,
            Endpoint::GetUser(_) => true,
            Endpoint::GetMyQuestions { .. } => true,
            Endpoint::CreateQuestion => true,
            Endpoint::UpdateQuestion(_) => true,
            Endpoint::DeleteQuestion(_) => true,
            Endpoint::GetMyCategories(_) => true,
            Endpoint::CreateCategory => true,
            Endpoint::UpdateCategory(_) => true,
            Endpoint::DeleteCategory(_) => true,
            Endpoint::GetMySteps(_) => true,
            Endpoint::CreateStep => true,
            Endpoint::UpdateStep(_) => true,
            Endpoint::DeleteStep(_) => true,
            Endpoint::CreateAnswer => true,
            Endpoint::MarkAnswerCorrect(_) => true,
            Endpoint::MarkAnswerIncorrect(_) => true,
            Endpoint::UpdateProfile(_) => true,
            Endpoint::ChangePassword(_) => true,
            Endpoint::DeleteUser(_) => true,
        }
    }

    pub fn reply_kind(&self) -> (r: ReplyKind)
        ensures
            r == reply_kind(*self),
    {
        match self {
            Endpoint::Login => ReplyKind::Data,
            Endpoint::Register => ReplyKind::Message,
            Endpoint::VerifyEmail => ReplyKind::Message,
            Endpoint::ResendVerification => ReplyKind::Message,
            Endpoint::ForgotPassword => ReplyKind::Message,
            Endpoint::ResetPassword => ReplyKind::Message,
            Endpoint::Refresh => ReplyKind::Data,
            Endpoint::Logout => ReplyKind::Done,
            Endpoint::GetUser(_) => ReplyKind::Data,
            Endpoint::GetMyQuestions { .. } => ReplyKind::List,
            Endpoint::CreateQuestion => ReplyKind::Message,
            Endpoint::UpdateQuestion(_) => ReplyKind::Message,
            Endpoint::DeleteQuestion(_) => ReplyKind::Message,
            Endpoint::GetMyCategories(_) => ReplyKind::List,
            Endpoint::CreateCategory => ReplyKind::Message,
            Endpoint::UpdateCategory(_) => ReplyKind::Message,
            Endpoint::DeleteCategory(_) => ReplyKind::Message,
            Endpoint::GetMySteps(_) => ReplyKind::List,
            Endpoint::CreateStep => ReplyKind::Message,
            Endpoint::UpdateStep(_) => ReplyKind::Message,
            Endpoint::DeleteStep(_) => ReplyKind::Message,
            Endpoint::CreateAnswer => ReplyKind::Data,
            Endpoint::MarkAnswerCorrect(_) => ReplyKind::Message,
            Endpoint::MarkAnswerIncorrect(_) => ReplyKind::Message,
            Endpoint::UpdateProfile(_) => ReplyKind::Message,
            Endpoint::ChangePassword(_) => ReplyKind::Message,
            Endpoint::DeleteUser(_) => ReplyKind::Message,
        }
    }

    /// The default success message, for calls that answer with a message.
    pub fn success_message(&self) -> (r: Option<&'static str>)
        ensures
            match r {
                Some(s) => success_text(*self) == Some(s@),
                None => success_text(*self) is None,
            },
    {
        match self {
            Endpoint::Login => None,
            Endpoint::Register => Some("Account created successfully."),
            Endpoint::VerifyEmail => Some("Email verified."),
            Endpoint::ResendVerification => Some("If this email is registered and not yet verified, a new verification link has been sent."),
            Endpoint::ForgotPassword => Some("If this email is registered, a password reset link has been sent."),
            Endpoint::ResetPassword => Some("Password reset successfully."),
            Endpoint::Refresh => None,
            Endpoint::Logout => None,
            Endpoint::GetUser(_) => None,
            Endpoint::GetMyQuestions { .. } => None,
            Endpoint::CreateQuestion => Some("Question recorded successfully."),
            Endpoint::UpdateQuestion(_) => Some("Question updated successfully."),
            Endpoint::DeleteQuestion(_) => Some("Question deleted successfully."),
            Endpoint::GetMyCategories(_) => None,
            Endpoint::CreateCategory => Some("Category recorded successfully."),
            Endpoint::UpdateCategory(_) => Some("Category updated successfully."),
            Endpoint::DeleteCategory(_) => Some("Category deleted successfully."),
            Endpoint::GetMySteps(_) => None,
            Endpoint::CreateStep => Some("Step recorded successfully."),
            Endpoint::UpdateStep(_) => Some("Step updated successfully."),
            Endpoint::DeleteStep(_) => Some("Step deleted successfully."),
            Endpoint::CreateAnswer => None,
            Endpoint::MarkAnswerCorrect(_) => Some("Correct answer! Question moved to the next step."),
            Endpoint::MarkAnswerIncorrect(_) => Some("Incorrect answer. Question reset to the first step."),
            Endpoint::UpdateProfile(_) => Some("Profile updated successfully."),
            Endpoint::ChangePassword(_) => Some("Password changed successfully."),
            Endpoint::DeleteUser(_) => Some("Account deleted successfully."),
        }
    }

    /// The default failure message.
    pub fn failure_message(&self) -> (r: &'static str)
        ensures
            r@ == failure_text(*self),
    {
        match self {
            Endpoint::Login => "Invalid credentials",
            Endpoint::Register => "Unable to create the account",
            Endpoint::VerifyEmail => "Unable to verify this email",
            Endpoint::ResendVerification => "Unable to resend the verification email",
            Endpoint::ForgotPassword => "Unable to request a password reset",
            Endpoint::ResetPassword => "Unable to reset the password",
            Endpoint::Refresh => "Unable to restore the session",
            Endpoint::Logout => "Unable to log out",
            Endpoint::GetUser(_) => "Unable to fetch the user",
            Endpoint::GetMyQuestions { .. } => "Unable to fetch questions",
            Endpoint::CreateQuestion => "Unable to create the question",
            Endpoint::UpdateQuestion(_) => "Unable to update the question",
            Endpoint::DeleteQuestion(_) => "Unable to delete the question",
            Endpoint::GetMyCategories(_) => "Unable to fetch categories",
            Endpoint::CreateCategory => "Unable to create the category",
            Endpoint::UpdateCategory(_) => "Unable to update the category",
            Endpoint::DeleteCategory(_) => "Unable to delete the category",
            Endpoint::GetMySteps(_) => "Unable to fetch steps",
            Endpoint::CreateStep => "Unable to create the step",
            Endpoint::UpdateStep(_) => "Unable to update the step",
            Endpoint::DeleteStep(_) => "Unable to delete the step",
            Endpoint::CreateAnswer => "Unable to record the answer",
            Endpoint::MarkAnswerCorrect(_) => "Unable to record the result",
            Endpoint::MarkAnswerIncorrect(_) => "Unable to record the result",
            Endpoint::UpdateProfile(_) => "Unable to update the profile",
            Endpoint::ChangePassword(_) => "Unable to change the password",
            Endpoint::DeleteUser(_) => "Unable to delete the account",
        }
    }

    /// The full URL of the call.
    pub fn url(&self) -> (r: String)
        ensures
            r@ == API_BASE_URL@ + endpoint_path(*self),
    {
        let mut url = String::from_str(API_BASE_URL);
        let ghost base = url@;
        match self {
            Endpoint::Login => {
                url.append("/auth/login");
            },
            Endpoint::Register => {
                url.append("/auth/register");
            },
            Endpoint::VerifyEmail => {
                url.append("/auth/verify-email");
            },
            Endpoint::ResendVerification => {
                url.append("/auth/resend-verification");
            },
            Endpoint::ForgotPassword => {
                url.append("/auth/forgot-password");
            },
            Endpoint::ResetPassword => {
                url.append("/auth/reset-password");
            },
            Endpoint::Refresh => {
                url.append("/auth/refresh");
            },
            Endpoint::Logout => {
                url.append("/auth/logout");
            },
            Endpoint::GetUser(id) => {
                url.append("/users/");
                push_decimal(&mut url, *id);
            },
            Endpoint::GetMyQuestions { user_id, archived, due_only } => {
                url.append("/questions/user/");
                push_decimal(&mut url, *user_id);
                url.append("?is_archived=");
                push_bool(&mut url, *archived);
                if *due_only {
                    url.append("&status=todo");
                }
            },
            Endpoint::CreateQuestion => {
                url.append("/questions");
            },
            Endpoint::UpdateQuestion(id) => {
                url.append("/questions/");
                push_decimal(&mut url, *id);
            },
            Endpoint::DeleteQuestion(id) => {
                url.append("/questions/");
                push_decimal(&mut url, *id);
            },
            Endpoint::GetMyCategories(id) => {
                url.append("/categories/user/");
                push_decimal(&mut url, *id);
            },
            Endpoint::CreateCategory => {
                url.append("/categories");
            },
            Endpoint::UpdateCategory(id) => {
                url.append("/categories/");
                push_decimal(&mut url, *id);
            },
            Endpoint::DeleteCategory(id) => {
                url.append("/categories/");
                push_decimal(&mut url, *id);
            },
            Endpoint::GetMySteps(id) => {
                url.append("/steps/user/");
                push_decimal(&mut url, *id);
            },
            Endpoint::CreateStep => {
                url.append("/steps");
            },
            Endpoint::UpdateStep(id) => {
                url.append("/steps/");
                push_decimal(&mut url, *id);
            },
            Endpoint::DeleteStep(id) => {
                url.append("/steps/");
                push_decimal(&mut url, *id);
            },
            Endpoint::CreateAnswer => {
                url.append("/answers");
            },
            Endpoint::MarkAnswerCorrect(id) => {
                url.append("/answers/");
                push_decimal(&mut url, *id);
                url.append("/correct");
            },
            Endpoint::MarkAnswerIncorrect(id) => {
                url.append("/answers/");
                push_decimal(&mut url, *id);
                url.append("/error");
            },
            Endpoint::UpdateProfile(id) => {
                url.append("/users/");
                push_decimal(&mut url, *id);
            },
            Endpoint::ChangePassword(id) => {
                url.append("/users/");
                push_decimal(&mut url, *id);
            },
            Endpoint::DeleteUser(id) => {
                url.append("/users/");
                push_decimal(&mut url, *id);
            },
        }
        assert(url@ =~= API_BASE_URL@ + endpoint_path(*self));
        url
    }
}

/// A call carries the access token exactly when its path is not under
/// `/auth/`: the sign-in, sign-up and session calls go without it, every call
/// on the user's data goes with it.
pub proof fn lemma_token_iff_outside_auth(e: Endpoint)
    ensures
        endpoint_needs_token(e) <==> !"/auth/"@.is_prefix_of(endpoint_path(e)),
{
    reveal_strlit("/auth/");
    match e {
        Endpoint::Login => {
            reveal_strlit("/auth/login");
            assert("/auth/"@ =~= endpoint_path(e).subrange(0, 6));
        },
        Endpoint::Register => {
            reveal_strlit("/auth/register");
            assert("/auth/"@ =~= endpoint_path(e).subrange(0, 6));
        },
        Endpoint::VerifyEmail => {
            reveal_strlit("/auth/verify-email");
            assert("/auth/"@ =~= endpoint_path(e).subrange(0, 6));
        },
        Endpoint::ResendVerification => {
            reveal_strlit("/auth/resend-verification");
            assert("/auth/"@ =~= endpoint_path(e).subrange(0, 6));
        },
        Endpoint::ForgotPassword => {
            reveal_strlit("/auth/forgot-password");
            assert("/auth/"@ =~= endpoint_path(e).subrange(0, 6));
        },
        Endpoint::ResetPassword => {
            reveal_strlit("/auth/reset-password");
            assert("/auth/"@ =~= endpoint_path(e).subrange(0, 6));
        },
        Endpoint::Refresh => {
            reveal_strlit("/auth/refresh");
            assert("/auth/"@ =~= endpoint_path(e).subrange(0, 6));
        },
        Endpoint::Logout => {
            reveal_strlit("/auth/logout");
            assert("/auth/"@ =~= endpoint_path(e).subrange(0, 6));
        },
        Endpoint::GetUser(id) => {
            reveal_strlit("/users/");
            assert(endpoint_path(e)[1] == "/users/"@[1]);
            assert(endpoint_path(e)[1] != "/auth/"@[1]);
        },
        Endpoint::GetMyQuestions { .. } => {
            reveal_strlit("/questions/user/");
            assert(endpoint_path(e)[1] == "/questions/user/"@[1]);
            assert(endpoint_path(e)[1] != "/auth/"@[1]);
        },
        Endpoint::CreateQuestion => {
            reveal_strlit("/questions");
            assert(endpoint_path(e)[1] == "/questions"@[1]);
            assert(endpoint_path(e)[1] != "/auth/"@[1]);
        },
        Endpoint::UpdateQuestion(id) => {
            reveal_strlit("/questions/");
            assert(endpoint_path(e)[1] == "/questions/"@[1]);
            assert(endpoint_path(e)[1] != "/auth/"@[1]);
        },
        Endpoint::DeleteQuestion(id) => {
            reveal_strlit("/questions/");
            assert(endpoint_path(e)[1] == "/questions/"@[1]);
            assert(endpoint_path(e)[1] != "/auth/"@[1]);
        },
        Endpoint::GetMyCategories(id) => {
            reveal_strlit("/categories/user/");
            assert(endpoint_path(e)[1] == "/categories/user/"@[1]);
            assert(endpoint_path(e)[1] != "/auth/"@[1]);
        },
        Endpoint::CreateCategory => {
            reveal_strlit("/categories");
            assert(endpoint_path(e)[1] == "/categories"@[1]);
            assert(endpoint_path(e)[1] != "/auth/"@[1]);
        },
        Endpoint::UpdateCategory(id) => {
            reveal_strlit("/categories/");
            assert(endpoint_path(e)[1] == "/categories/"@[1]);
            assert(endpoint_path(e)[1] != "/auth/"@[1]);
        },
        Endpoint::DeleteCategory(id) => {
            reveal_strlit("/categories/");
            assert(endpoint_path(e)[1] == "/categories/"@[1]);
            assert(endpoint_path(e)[1] != "/auth/"@[1]);
        },
        Endpoint::GetMySteps(id) => {
            reveal_strlit("/steps/user/");
            assert(endpoint_path(e)[1] == "/steps/user/"@[1]);
            assert(endpoint_path(e)[1] != "/auth/"@[1]);
        },
        Endpoint::CreateStep => {
            reveal_strlit("/steps");
            assert(endpoint_path(e)[1] == "/steps"@[1]);
            assert(endpoint_path(e)[1] != "/auth/"@[1]);
        },
        Endpoint::UpdateStep(id) => {
            reveal_strlit("/steps/");
            assert(endpoint_path(e)[1] == "/steps/"@[1]);
            assert(endpoint_path(e)[1] != "/auth/"@[1]);
        },
        Endpoint::DeleteStep(id) => {
            reveal_strlit("/steps/");
            assert(endpoint_path(e)[1] == "/steps/"@[1]);
            assert(endpoint_path(e)[1] != "/auth/"@[1]);
        },
        Endpoint::CreateAnswer => {
            reveal_strlit("/answers");
            assert(endpoint_path(e)[2] == "/answers"@[2]);
            assert(endpoint_path(e)[2] != "/auth/"@[2]);
        },
        Endpoint::MarkAnswerCorrect(id) => {
            reveal_strlit("/answers/");
            assert(endpoint_path(e)[2] == "/answers/"@[2]);
            assert(endpoint_path(e)[2] != "/auth/"@[2]);
        },
        Endpoint::MarkAnswerIncorrect(id) => {
            reveal_strlit("/answers/");
            assert(endpoint_path(e)[2] == "/answers/"@[2]);
            assert(endpoint_path(e)[2] != "/auth/"@[2]);
        },
        Endpoint::UpdateProfile(id) => {
            reveal_strlit("/users/");
            assert(endpoint_path(e)[1] == "/users/"@[1]);
            assert(endpoint_path(e)[1] != "/auth/"@[1]);
        },
        Endpoint::ChangePassword(id) => {
            reveal_strlit("/users/");
            assert(endpoint_path(e)[1] == "/users/"@[1]);
            assert(endpoint_path(e)[1] != "/auth/"@[1]);
        },
        Endpoint::DeleteUser(id) => {
            reveal_strlit("/users/");
            assert(endpoint_path(e)[1] == "/users/"@[1]);
            assert(endpoint_path(e)[1] != "/auth/"@[1]);
        },
    }
}

/// A call on one item addresses that item's resource: its path is the path of
/// the item's collection (the one a new item is posted to), a slash and the
/// item's id; updating and deleting an item use the same path; a user's own
/// collection is the collection's path, `/user/` and the user's id; an answer
/// is graded at its own path followed by `/correct` or `/error`; and the
/// profile, password and account calls all address the user read by
/// `GetUser`.
pub proof fn lemma_item_paths(id: i64)
    ensures
        endpoint_path(Endpoint::UpdateQuestion(id)) == endpoint_path(Endpoint::CreateQuestion) + "/"@
            + decimal_text(id as int),
        endpoint_path(Endpoint::DeleteQuestion(id)) == endpoint_path(Endpoint::UpdateQuestion(id)),
        endpoint_path(Endpoint::UpdateCategory(id)) == endpoint_path(Endpoint::CreateCategory) + "/"@
            + decimal_text(id as int),
        endpoint_path(Endpoint::DeleteCategory(id)) == endpoint_path(Endpoint::UpdateCategory(id)),
        endpoint_path(Endpoint::UpdateStep(id)) == endpoint_path(Endpoint::CreateStep) + "/"@
            + decimal_text(id as int),
        endpoint_path(Endpoint::DeleteStep(id)) == endpoint_path(Endpoint::UpdateStep(id)),
        endpoint_path(Endpoint::GetMyQuestions { user_id: id, archived: false, due_only: false })
            == endpoint_path(Endpoint::CreateQuestion) + "/user/"@ + decimal_text(id as int)
            + "?is_archived=false"@,
        endpoint_path(Endpoint::GetMyCategories(id)) == endpoint_path(Endpoint::CreateCategory)
            + "/user/"@ + decimal_text(id as int),
        endpoint_path(Endpoint::GetMySteps(id)) == endpoint_path(Endpoint::CreateStep) + "/user/"@
            + decimal_text(id as int),
        endpoint_path(Endpoint::MarkAnswerCorrect(id)) == endpoint_path(Endpoint::CreateAnswer) + "/"@
            + decimal_text(id as int) + "/correct"@,
        endpoint_path(Endpoint::MarkAnswerIncorrect(id)) == endpoint_path(Endpoint::CreateAnswer)
            + "/"@ + decimal_text(id as int) + "/error"@,
        endpoint_path(Endpoint::UpdateProfile(id)) == endpoint_path(Endpoint::GetUser(id)),
        endpoint_path(Endpoint::ChangePassword(id)) == endpoint_path(Endpoint::GetUser(id)),
        endpoint_path(Endpoint::DeleteUser(id)) == endpoint_path(Endpoint::GetUser(id)),
{
    let d = decimal_text(id as int);
    reveal_strlit("/");
    reveal_strlit("/user/");
    reveal_strlit("/questions");
    reveal_strlit("/questions/");
    reveal_strlit("/questions/user/");
    reveal_strlit("/categories");
    reveal_strlit("/categories/");
    reveal_strlit("/categories/user/");
    reveal_strlit("/steps");
    reveal_strlit("/steps/");
    reveal_strlit("/steps/user/");
    reveal_strlit("/answers");
    reveal_strlit("/answers/");
    assert("/questions/"@ =~= "/questions"@ + "/"@);
    assert("/questions/"@ + d =~= "/questions"@ + "/"@ + d);
    assert("/categories/"@ =~= "/categories"@ + "/"@);
    assert("/categories/"@ + d =~= "/categories"@ + "/"@ + d);
    assert("/steps/"@ =~= "/steps"@ + "/"@);
    assert("/steps/"@ + d =~= "/steps"@ + "/"@ + d);
    assert("/questions/user/"@ =~= "/questions"@ + "/user/"@);
    assert("/questions/user/"@ + d =~= "/questions"@ + "/user/"@ + d);
    assert(endpoint_path(Endpoint::GetMyQuestions { user_id: id, archived: false, due_only: false })
        =~= "/questions/user/"@ + d + "?is_archived="@ + "false"@);
    reveal_strlit("?is_archived=");
    reveal_strlit("false");
    reveal_strlit("?is_archived=false");
    assert("?is_archived="@ + "false"@ =~= "?is_archived=false"@);
    assert("/questions/user/"@ + d + "?is_archived="@ + "false"@ =~= "/questions"@ + "/user/"@ + d
        + "?is_archived=false"@);
    assert("/categories/user/"@ =~= "/categories"@ + "/user/"@);
    assert("/categories/user/"@ + d =~= "/categories"@ + "/user/"@ + d);
    assert("/steps/user/"@ =~= "/steps"@ + "/user/"@);
    assert("/steps/user/"@ + d =~= "/steps"@ + "/user/"@ + d);
    assert("/answers/"@ =~= "/answers"@ + "/"@);
    assert("/answers/"@ + d =~= "/answers"@ + "/"@ + d);
}

/// New items are posted, items are replaced with `PUT`, removed with
/// `DELETE` and read with `GET`; an answer is graded with `PATCH`.
pub proof fn lemma_methods_follow_actions(id: i64, archived: bool, due_only: bool)
    ensures
        endpoint_method(Endpoint::CreateQuestion) == Method::Post,
        endpoint_method(Endpoint::CreateCategory) == Method::Post,
        endpoint_method(Endpoint::CreateStep) == Method::Post,
        endpoint_method(Endpoint::CreateAnswer) == Method::Post,
        endpoint_method(Endpoint::UpdateQuestion(id)) == Method::Put,
        endpoint_method(Endpoint::UpdateCategory(id)) == Method::Put,
        endpoint_method(Endpoint::UpdateStep(id)) == Method::Put,
        endpoint_method(Endpoint::UpdateProfile(id)) == Method::Put,
        endpoint_method(Endpoint::ChangePassword(id)) == Method::Put,
        endpoint_method(Endpoint::DeleteQuestion(id)) == Method::Delete,
        endpoint_method(Endpoint::DeleteCategory(id)) == Method::Delete,
        endpoint_method(Endpoint::DeleteStep(id)) == Method::Delete,
        endpoint_method(Endpoint::DeleteUser(id)) == Method::Delete,
        endpoint_method(Endpoint::GetUser(id)) == Method::Get,
        endpoint_method(Endpoint::GetMyQuestions { user_id: id, archived, due_only }) == Method::Get,
        endpoint_method(Endpoint::GetMyCategories(id)) == Method::Get,
        endpoint_method(Endpoint::GetMySteps(id)) == Method::Get,
        endpoint_method(Endpoint::MarkAnswerCorrect(id)) == Method::Patch,
        endpoint_method(Endpoint::MarkAnswerIncorrect(id)) == Method::Patch,
{
}

/// What the client says when the server cannot be reached.
pub const SERVER_UNREACHABLE: &'static str = "Unable to reach the server";

/// What the client says when a reply cannot be read, or a successful reply
/// lacks the data the call expects.
pub const INVALID_RESPONSE: &'static str = "Invalid response from the server";

/// The server's message where it sent one, else `default`.
pub open spec fn message_or(message: Option<String>, default: Seq<char>) -> Seq<char> {
    match message {
        Some(m) => m@,
        None => default,
    }
}

fn message_or_default(message: Option<String>, default: &str) -> (r: String)
    ensures
        r@ == message_or(message, default@),
{
    match message {
        Some(m) => m,
        None => String::from_str(default),
    }
}

/// The result of a call that answers with a message: on success the
/// server's message or the call's default success message, on failure the
/// server's message or the call's default failure message.
pub fn message_reply(endpoint: &Endpoint, success: bool, message: Option<String>) -> (r: Result<
    String,
    String,
>)
    requires
        reply_kind(*endpoint) == ReplyKind::Message,
    ensures
        match r {
            Ok(text) => success && success_text(*endpoint) is Some && text@ == message_or(
                message,
                success_text(*endpoint)->0,
            ),
            Err(text) => !success && text@ == message_or(message, failure_text(*endpoint)),
        },
{
    if success {
        let default = match endpoint.success_message() {
            Some(d) => d,
            None => {
                assert(false);
                ""
            },
        };
        Ok(message_or_default(message, default))
    } else {
        Err(message_or_default(message, endpoint.failure_message()))
    }
}

/// The result of a call whose successful reply carries data: the data, or
/// the invalid-response message where a successful reply lacks it; on
/// failure the server's message or the call's default failure message.
pub fn data_reply<T>(endpoint: &Endpoint, success: bool, data: Option<T>, message: Option<String>) -> (r: Result<T, String>)
    requires
        reply_kind(*endpoint) == ReplyKind::Data,
    ensures
        match r {
            Ok(d) => success && data == Some(d),
            Err(text) => (success && data is None && text@ == INVALID_RESPONSE@) || (!success
                && text@ == message_or(message, failure_text(*endpoint))),
        },
{
    if success {
        match data {
            Some(d) => Ok(d),
            None => Err(String::from_str(INVALID_RESPONSE)),
        }
    } else {
        Err(message_or_default(message, endpoint.failure_message()))
    }
}

/// The result of a call whose successful reply carries a list: the list,
/// empty where the reply has none; on failure the server's message or the
/// call's default failure message.
pub fn list_reply<T>(endpoint: &Endpoint, success: bool, data: Option<Vec<T>>, message: Option<String>) -> (r: Result<Vec<T>, String>)
    requires
        reply_kind(*endpoint) == ReplyKind::List,
    ensures
        match r {
            Ok(items) => success && match data {
                Some(d) => items@ == d@,
                None => items@.len() == 0,
            },
            Err(text) => !success && text@ == message_or(message, failure_text(*endpoint)),
        },
{
    if success {
        match data {
            Some(d) => Ok(d),
            None => Ok(Vec::new()),
        }
    } else {
        Err(message_or_default(message, endpoint.failure_message()))
    }
}

/// The result of a call whose success carries nothing.
pub fn done_reply(endpoint: &Endpoint, success: bool, message: Option<String>) -> (r: Result<(), String>)
    requires
        reply_kind(*endpoint) == ReplyKind::Done,
    ensures
        match r {
            Ok(_) => success,
            Err(text) => !success && text@ == message_or(message, failure_text(*endpoint)),
        },
{
    if success {
        Ok(())
    } else {
        Err(message_or_default(message, endpoint.failure_message()))
    }
}


/// The payload segment of a JSON Web Token: the text between its first and
/// second `.` (or after the first `.` where there is no second), as
/// `token.split('.').nth(1)` gives it; `None` where the token has no `.`.
pub open spec fn token_payload_segment(token: Seq<char>) -> Option<Seq<char>> {
    match split_once(token, '.') {
        None => None,
        Some((_, rest)) => match split_once(rest, '.') {
            Some((segment, _)) => Some(segment),
            None => Some(rest),
        },
    }
}

/// The bytes that the URL-safe, unpadded base64 alphabet decodes `input` to
/// (the UTF-8 bytes of `input` being decoded), or `None` where it is not
/// valid such base64.
pub uninterp spec fn base64_url_no_pad_decode(input: Seq<char>) -> Option<Seq<u8>>;

/// `base64::Engine::decode` with `base64::engine::general_purpose::URL_SAFE_NO_PAD`:
/// the decoded bytes, or `None` on a decode error. The decoding itself is
/// named, not restated.
#[verifier::external_body]
fn decode_base64_url(input: &str) -> (r: Option<Vec<u8>>)
    ensures
        match r {
            Some(bytes) => base64_url_no_pad_decode(input@) == Some(bytes@),
            None => base64_url_no_pad_decode(input@) is None,
        },
{
    base64::engine::general_purpose::URL_SAFE_NO_PAD.decode(input).ok()
}

/// The decoded payload of an access token, the JSON text of its claims:
/// `None` where the token has no payload segment or it is not valid
/// URL-safe unpadded base64.
pub fn claims_payload(token: &str) -> (r: Option<Vec<u8>>)
    ensures
        match r {
            Some(bytes) => token_payload_segment(token@) matches Some(segment)
                && base64_url_no_pad_decode(segment) == Some(bytes@),
            None => match token_payload_segment(token@) {
                Some(segment) => base64_url_no_pad_decode(segment) is None,
                None => true,
            },
        },
{
    let chars = chars_of(token);
    let len = chars.len();
    let ghost text = chars@;
    assert(text.skip(0) =~= text);
    let first_dot = match find_char(&chars, 0, '.') {
        Some(i) => i,
        None => {
            return None;
        },
    };
    proof {
        lemma_split_once_at(text, '.', first_dot as int);
    }
    let ghost rest = text.skip(first_dot + 1);
    let end = match find_char(&chars, first_dot + 1, '.') {
        Some(j) => {
            proof {
                lemma_split_once_at(rest, '.', j - first_dot - 1);
                assert(rest.take(j - first_dot - 1) =~= text.subrange(first_dot + 1, j as int));
            }
            j
        },
        None => {
            assert(rest =~= text.subrange(first_dot + 1, text.len() as int));
            chars.len()
        },
    };
    let segment = token.substring_char(first_dot + 1, end);
    decode_base64_url(segment)
}

} // verus!
