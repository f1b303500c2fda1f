//! Credential resolution and request planning.

use prtgc_httpadvanced::creds::get_env_creds;
use prtgc_httpadvanced::params::{AppParameters, CredType, HttpMethod};
use prtgc_httpadvanced::request::prepare_request;

#[test]
fn env_var_names_per_mode() {
    assert_eq!(CredType::Linux.env_var_names(), Some(("linuxuser", "linuxpassword")));
    assert_eq!(CredType::Win.env_var_names(), Some(("windowsuser", "windowspassword")));
    assert_eq!(CredType::NoAuth.env_var_names(), None);
}

#[test]
fn missing_username_names_variable() {
    let r = get_env_creds("linuxuser", None, "linuxpassword", Some(String::from("pw")));
    assert_eq!(r.err().unwrap(), "Username[linuxuser] Not in env: NotPresent");
}

#[test]
fn missing_password_names_variable() {
    let r = get_env_creds("linuxuser", Some(String::from("me")), "linuxpassword", None);
    assert_eq!(r.err().unwrap(), "Password[linuxpassword] Not in env: NotPresent");
}

#[test]
fn username_checked_before_password() {
    let r = get_env_creds("windowsuser", None, "windowspassword", None);
    assert_eq!(r.err().unwrap(), "Username[windowsuser] Not in env: NotPresent");
}

#[test]
fn both_variables_present_resolve() {
    let r = get_env_creds(
        "linuxuser",
        Some(String::from("me")),
        "linuxpassword",
        Some(String::from("pw")),
    );
    let c = r.unwrap();
    assert_eq!(c.username, "me");
    assert_eq!(c.password, "pw");
}

fn params_with_creds(creds: CredType) -> AppParameters {
    let mut p = AppParameters::default();
    p.creds = creds;
    p
}

#[test]
fn plan_without_auth_carries_configuration() {
    let mut p = params_with_creds(CredType::NoAuth);
    p.url = String::from("http://probe.test/");
    p.method = HttpMethod::Head;
    let plan = prepare_request(p, None, None).unwrap();
    assert_eq!(plan.method, HttpMethod::Head);
    assert_eq!(plan.url, "http://probe.test/");
    assert!(plan.auth.is_none());
    assert!(plan.body.is_none());
}

#[test]
fn plan_fails_before_network_when_linux_user_unset() {
    let p = params_with_creds(CredType::Linux);
    let e = prepare_request(p, None, Some(String::from("pw"))).err().unwrap();
    assert_eq!(e, "Username[linuxuser] Not in env: NotPresent");
}

#[test]
fn plan_fails_when_windows_password_unset() {
    let p = params_with_creds(CredType::Win);
    let e = prepare_request(p, Some(String::from("me")), None).err().unwrap();
    assert_eq!(e, "Password[windowspassword] Not in env: NotPresent");
}

#[test]
fn plan_attaches_resolved_credentials() {
    let mut p = params_with_creds(CredType::Linux);
    p.method = HttpMethod::Post;
    p.body = Some(String::from("payload"));
    let plan = prepare_request(p, Some(String::from("me")), Some(String::from("pw"))).unwrap();
    let auth = plan.auth.unwrap();
    assert_eq!(auth.username, "me");
    assert_eq!(auth.password, "pw");
    assert_eq!(plan.method, HttpMethod::Post);
    assert_eq!(plan.body.as_deref(), Some("payload"));
}
