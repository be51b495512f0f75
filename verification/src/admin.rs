//! The password-protected admin surface: the comparison of credentials and the three
//! form handlers, on plain values.

use vstd::prelude::*;
use crate::config::{ConfigFile, Settings};
use crate::ident::{is_random_uuid, parsed_uuid};
use crate::service::{activate_profile, activation, create_profile, delete_profile, deletion};
use crate::service::{name_view, new_profile, with_profile, ProfileError};

verus! {

/// The standard base64 text, with padding, of the UTF-8 bytes of `text`, as
/// `base64::encode` gives it.
pub uninterp spec fn base64_text(text: Seq<char>) -> Seq<char>;

/// `text` without its leading and trailing white space, as `str::trim`
/// gives it.
pub uninterp spec fn trimmed(text: Seq<char>) -> Seq<char>;

/// Calls `base64::encode` on the bytes of `text`.
///
/// Trusted: the result is a function of the text alone, named by
/// [`base64_text`].
#[verifier::external_body]
pub(crate) fn base64_encode(text: &str) -> (r: String)
    ensures
        r@ == base64_text(text@),
{
    base64::encode(text.as_bytes())
}

/// Calls `str::trim`.
///
/// Trusted: the result is a function of the text alone, named by
/// [`trimmed`].
#[verifier::external_body]
pub(crate) fn trim_text<'a>(text: &'a str) -> (r: &'a str)
    ensures
        r@ == trimmed(text@),
{
    text.trim()
}

/// The answer to a request that carries no usable credentials: status 401
/// with a challenge for basic authentication.
#[derive(Debug, PartialEq, Eq)]
pub struct RequiresBasicAuthentication;

impl RequiresBasicAuthentication {
    /// The status, the header's name and the header's value of the answer.
    pub fn respond_to(self) -> (r: (u16, String, String))
        ensures
            r.0 == 401,
            r.1@ == "WWW-Authenticate"@,
            r.2@ == "Basic"@,
    {
        (401, "WWW-Authenticate".to_owned(), "Basic".to_owned())
    }
}

/// Proof that a request came with the admin's credentials.
#[derive(Debug, PartialEq, Eq)]
pub struct AdminUser;

/// What the comparison of credentials makes of a request.
#[derive(Debug, PartialEq, Eq)]
pub enum AuthOutcome {
    /// The credentials are the admin's.
    Success(AdminUser),
    /// Credentials were sent and are wrong; the status to answer with.
    Failure(u16, RequiresBasicAuthentication),
    /// No credentials were sent: the request goes on to the next handler.
    Forward,
}

/// The `Authorization` header that the admin sends for `password`.
pub open spec fn expected_authorization(password: Seq<char>) -> Seq<char> {
    "Basic "@ + base64_text("admin:"@ + password)
}

/// The outcome for a header value, if any, held against the expected one.
pub open spec fn verdict(header: Option<Seq<char>>, expected: Seq<char>) -> AuthOutcome {
    match header {
        None => AuthOutcome::Forward,
        Some(h) => if h == expected {
            AuthOutcome::Success(AdminUser)
        } else {
            AuthOutcome::Failure(403, RequiresBasicAuthentication)
        },
    }
}

/// A header value as it is compared: trimmed.
pub open spec fn trimmed_header(header: Option<&str>) -> Option<Seq<char>> {
    match header {
        Some(h) => Some(trimmed(h@)),
        None => None,
    }
}

impl AdminUser {
    /// The admin password from the settings; it must be there.
    pub fn extract_password(settings: &Settings) -> (password: String)
        requires
            settings.admin_password is Some,
        ensures
            password@ == settings.admin_password->0@,
    {
        settings.admin_password.as_ref().unwrap().clone()
    }

    /// The header value that stands for `password`.
    pub fn expected_header(password: &str) -> (header: String)
        ensures
            header@ == expected_authorization(password@),
    {
        let credentials = "admin:".to_owned().concat(password);
        let encoded = base64_encode(credentials.as_str());
        "Basic ".to_owned().concat(encoded.as_str())
    }

    /// Holds a header value, already trimmed, against the expected one.
    pub fn check_header(header: Option<&str>, expected: &str) -> (r: AuthOutcome)
        ensures
            r == verdict(name_view(header), expected@),
    {
        match header {
            None => AuthOutcome::Forward,
            Some(h) => {
                if h.to_owned() == expected.to_owned() {
                    AuthOutcome::Success(AdminUser)
                } else {
                    AuthOutcome::Failure(403, RequiresBasicAuthentication)
                }
            },
        }
    }

    /// Compares the credentials of a request: `authorization` is the value of
    /// its `Authorization` header, if it has one.
    pub fn from_request(authorization: Option<&str>, password: &str) -> (r: AuthOutcome)
        ensures
            r == verdict(trimmed_header(authorization), expected_authorization(password@)),
    {
        let expected = Self::expected_header(password);
        match authorization {
            Some(h) => Self::check_header(Some(trim_text(h)), expected.as_str()),
            None => Self::check_header(None, expected.as_str()),
        }
    }
}

/// The handler of the admin page for a request without credentials.
pub fn admin_unauthenticated() -> (r: RequiresBasicAuthentication)
    ensures
        r == RequiresBasicAuthentication,
{
    RequiresBasicAuthentication
}

/// Where the admin is sent after a transaction: back to the admin page, with
/// an error indicator where the transaction was turned down.
pub open spec fn redirect_location(outcome: Result<(), ProfileError>) -> Seq<char> {
    match outcome {
        Ok(_) => "/admin"@,
        Err(ProfileError::InvalidInput) => "/admin?error=bad_uri"@,
        Err(ProfileError::InvalidIdentifier) => "/admin?error=bad_uuid"@,
        Err(ProfileError::ProfileNotFound) => "/admin?error=bad_uuid"@,
        Err(ProfileError::ActiveProfile) => "/admin?error=active_profile"@,
    }
}

/// The location for the outcome of a transaction.
pub fn redirect_to(outcome: Result<(), ProfileError>) -> (location: String)
    ensures
        location@ == redirect_location(outcome),
{
    match outcome {
        Ok(_) => "/admin".to_owned(),
        Err(ProfileError::InvalidInput) => "/admin?error=bad_uri".to_owned(),
        Err(ProfileError::InvalidIdentifier) => "/admin?error=bad_uuid".to_owned(),
        Err(ProfileError::ProfileNotFound) => "/admin?error=bad_uuid".to_owned(),
        Err(ProfileError::ActiveProfile) => "/admin?error=active_profile".to_owned(),
    }
}

/// The form that creates a profile.
pub struct NewProfileForm<'r> {
    pub name: Option<&'r str>,
    pub redirect_uri: &'r str,
}

/// The form that activates a profile.
pub struct ActivateProfileForm<'a> {
    pub id: &'a str,
}

/// The form that deletes a profile.
pub struct DeleteProfileForm<'a> {
    pub id: &'a str,
}

/// Handles the creation form and says where the admin is sent.
pub fn new_profile_form(form: &NewProfileForm<'_>, store: &mut ConfigFile) -> (location: String)
    ensures
        final(store).wf(),
        form.redirect_uri@.len() == 0 ==> final(store)@ == old(store)@ && location@
            == redirect_location(Err(ProfileError::InvalidInput)),
        form.redirect_uri@.len() > 0 ==> location@ == redirect_location(Ok(())) && exists|id: u128|
            #[trigger] is_random_uuid(id) && final(store)@ == old(store)@.replaced(
                with_profile(
                    old(store)@.config,
                    id,
                    new_profile(name_view(form.name), form.redirect_uri@),
                ),
            ),
{
    match create_profile(store, form.name, form.redirect_uri) {
        Ok(id) => {
            assert(is_random_uuid(id));
            redirect_to(Ok(()))
        },
        Err(e) => redirect_to(Err(e)),
    }
}

/// Handles the activation form and says where the admin is sent.
pub fn activate_profile_form(form: &ActivateProfileForm<'_>, store: &mut ConfigFile) -> (location:
    String)
    ensures
        final(store).wf(),
        parsed_uuid(form.id@) is None ==> final(store)@ == old(store)@ && location@
            == redirect_location(Err(ProfileError::InvalidIdentifier)),
        parsed_uuid(form.id@) is Some ==> final(store)@ == activation(
            old(store)@,
            parsed_uuid(form.id@)->0,
        ).0 && location@ == redirect_location(activation(old(store)@, parsed_uuid(form.id@)->0).1),
{
    redirect_to(activate_profile(store, form.id))
}

/// Handles the deletion form and says where the admin is sent.
pub fn delete_profile_form(form: &DeleteProfileForm<'_>, store: &mut ConfigFile) -> (location:
    String)
    ensures
        final(store).wf(),
        parsed_uuid(form.id@) is None ==> final(store)@ == old(store)@ && location@
            == redirect_location(Err(ProfileError::InvalidIdentifier)),
        parsed_uuid(form.id@) is Some ==> final(store)@ == deletion(
            old(store)@,
            parsed_uuid(form.id@)->0,
        ).0 && location@ == redirect_location(deletion(old(store)@, parsed_uuid(form.id@)->0).1),
{
    redirect_to(delete_profile(store, form.id))
}

} // verus!
