use armqr::admin::{activate_profile_form, admin_unauthenticated, delete_profile_form};
use armqr::admin::{new_profile_form, redirect_to, ActivateProfileForm, AdminUser, AuthOutcome};
use armqr::admin::{DeleteProfileForm, NewProfileForm, RequiresBasicAuthentication};
use armqr::config::{Action, Config, ConfigFile, Settings};
use armqr::service::ProfileError;

const SEED: u128 = 0x11111111_1111_4111_8111_111111111111;
const SEED_TEXT: &str = "11111111-1111-4111-8111-111111111111";

fn seeded_store() -> ConfigFile {
    ConfigFile::new("armqr.json".to_string(), Some(Config::seeded(SEED)))
}

#[test]
fn expected_header_is_basic_and_base64() {
    assert_eq!(AdminUser::expected_header("secret"), "Basic YWRtaW46c2VjcmV0");
    assert_eq!(AdminUser::expected_header(""), "Basic YWRtaW46");
    assert_eq!(AdminUser::expected_header("p\u{e4}ss"), "Basic YWRtaW46cMOkc3M=");
}

#[test]
fn from_request_accepts_the_admin_credentials() {
    let outcome = AdminUser::from_request(Some("Basic YWRtaW46c2VjcmV0"), "secret");
    assert_eq!(outcome, AuthOutcome::Success(AdminUser));
}

#[test]
fn from_request_trims_the_header() {
    let outcome = AdminUser::from_request(Some("  Basic YWRtaW46c2VjcmV0\t "), "secret");
    assert_eq!(outcome, AuthOutcome::Success(AdminUser));
}

#[test]
fn from_request_forbids_wrong_credentials() {
    let forbidden = AuthOutcome::Failure(403, RequiresBasicAuthentication);
    assert_eq!(AdminUser::from_request(Some("Basic YWRtaW46c2VjcmV0"), "other"), forbidden);
    assert_eq!(AdminUser::from_request(Some("Basic"), "secret"), forbidden);
    assert_eq!(AdminUser::from_request(Some(""), "secret"), forbidden);
    assert_eq!(AdminUser::from_request(Some("basic YWRtaW46c2VjcmV0"), "secret"), forbidden);
    assert_eq!(AdminUser::from_request(Some("Basic admin:secret"), "secret"), forbidden);
}

#[test]
fn from_request_forwards_without_a_header() {
    assert_eq!(AdminUser::from_request(None, "secret"), AuthOutcome::Forward);
}

#[test]
fn check_header_compares_exactly() {
    assert_eq!(AdminUser::check_header(Some("x"), "x"), AuthOutcome::Success(AdminUser));
    assert_eq!(
        AdminUser::check_header(Some(" x"), "x"),
        AuthOutcome::Failure(403, RequiresBasicAuthentication)
    );
    assert_eq!(AdminUser::check_header(None, "x"), AuthOutcome::Forward);
}

#[test]
fn extract_password_reads_the_settings() {
    let settings = Settings { state_file_path: None, admin_password: Some("hunter2".to_string()) };
    assert_eq!(AdminUser::extract_password(&settings), "hunter2");
}

#[test]
fn unauthenticated_admin_page_asks_for_basic_authentication() {
    let answer = admin_unauthenticated();
    assert_eq!(answer, RequiresBasicAuthentication);
    assert_eq!(answer.respond_to(), (401, "WWW-Authenticate".to_string(), "Basic".to_string()));
}

#[test]
fn redirect_to_names_the_error() {
    assert_eq!(redirect_to(Ok(())), "/admin");
    assert_eq!(redirect_to(Err(ProfileError::InvalidInput)), "/admin?error=bad_uri");
    assert_eq!(redirect_to(Err(ProfileError::InvalidIdentifier)), "/admin?error=bad_uuid");
    assert_eq!(redirect_to(Err(ProfileError::ProfileNotFound)), "/admin?error=bad_uuid");
    assert_eq!(redirect_to(Err(ProfileError::ActiveProfile)), "/admin?error=active_profile");
}

#[test]
fn new_profile_form_creates_a_profile() {
    let mut store = seeded_store();
    let form = NewProfileForm { name: Some("B"), redirect_uri: "https://b.example" };
    assert_eq!(new_profile_form(&form, &mut store), "/admin");
    let config = store.read();
    assert_eq!(config.profiles.len(), 2);
    assert_eq!(config.current_profile_id, SEED);
    let added: Vec<_> = config.profiles.iter().filter(|(id, _)| **id != SEED).collect();
    assert_eq!(added.len(), 1);
    assert_eq!(added[0].1.name, "B");
    assert_eq!(added[0].1.action, Action::Redirect("https://b.example".to_string()));
}

#[test]
fn new_profile_form_without_a_name_builds_one() {
    let mut store = seeded_store();
    let form = NewProfileForm { name: None, redirect_uri: "https://b.example" };
    assert_eq!(new_profile_form(&form, &mut store), "/admin");
    let config = store.read();
    let added: Vec<_> = config.profiles.iter().filter(|(id, _)| **id != SEED).collect();
    assert_eq!(added[0].1.name, "Redirect: https://b.example");
}

#[test]
fn new_profile_form_reports_an_empty_target() {
    let mut store = seeded_store();
    let form = NewProfileForm { name: Some("B"), redirect_uri: "" };
    assert_eq!(new_profile_form(&form, &mut store), "/admin?error=bad_uri");
    assert_eq!(store.read(), &Config::seeded(SEED));
}

#[test]
fn activate_profile_form_reports_bad_and_unknown_identifiers() {
    let mut store = seeded_store();
    let malformed = ActivateProfileForm { id: "not-a-uuid" };
    assert_eq!(activate_profile_form(&malformed, &mut store), "/admin?error=bad_uuid");
    let unknown = ActivateProfileForm { id: "22222222-2222-4222-8222-222222222222" };
    assert_eq!(activate_profile_form(&unknown, &mut store), "/admin?error=bad_uuid");
    assert_eq!(store.read(), &Config::seeded(SEED));
    let known = ActivateProfileForm { id: SEED_TEXT };
    assert_eq!(activate_profile_form(&known, &mut store), "/admin");
    assert_eq!(store.read(), &Config::seeded(SEED));
}

#[test]
fn delete_profile_form_reports_what_it_refuses() {
    let mut store = seeded_store();
    let malformed = DeleteProfileForm { id: "not-a-uuid" };
    assert_eq!(delete_profile_form(&malformed, &mut store), "/admin?error=bad_uuid");
    let active = DeleteProfileForm { id: SEED_TEXT };
    assert_eq!(delete_profile_form(&active, &mut store), "/admin?error=active_profile");
    let absent = DeleteProfileForm { id: "22222222-2222-4222-8222-222222222222" };
    assert_eq!(delete_profile_form(&absent, &mut store), "/admin");
    assert_eq!(store.read(), &Config::seeded(SEED));
}
