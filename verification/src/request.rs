//! Planning the single outgoing request: everything the transport needs,
//! decided and validated before any network activity.
//!
//! The caller performs the environment lookups that the configuration's
//! credential mode names and hands their results in; the plan that comes
//! out fixes method, URL, credentials and body. Sending it is the caller's
//! I/O.

use vstd::prelude::*;
use crate::creds::{
    Credentials,
    get_env_creds,
    spec_missing_pwd_msg,
    spec_missing_user_msg,
    spec_pwd_var,
    spec_user_var,
};
use crate::params::{AppParameters, CredType, HttpMethod, opt_str_view};

verus! {

/// One fully-decided outgoing request, ready for a transport to send.
#[derive(Debug)]
pub struct RequestPlan {
    pub method: HttpMethod,
    pub url: String,
    /// HTTP Basic credentials to attach, if the credential mode resolved a
    /// pair.
    pub auth: Option<Credentials>,
    pub body: Option<String>,
}

/// The plan carries the configuration's method, URL and body unchanged.
pub open spec fn spec_plan_matches(plan: RequestPlan, params: AppParameters) -> bool {
    &&& plan.method == params.method
    &&& plan.url@ == params.url@
    &&& opt_str_view(plan.body) == opt_str_view(params.body)
}

/// Builds the request plan for a validated configuration. `usr_val` and
/// `pwd_val` are what the environment lookups of the variables named by
/// the credential mode returned; for mode NoAuth no lookup happens and
/// both are ignored. A missing variable fails the invocation here, before
/// any network activity, with a message naming the variable; the username
/// is checked first.
pub fn prepare_request(params: AppParameters, usr_val: Option<String>, pwd_val: Option<String>) -> (
    r: Result<RequestPlan, String>)
    ensures
        params.creds == CredType::NoAuth ==> (r matches Ok(plan) && plan.auth is None
            && spec_plan_matches(plan, params)),
        params.creds != CredType::NoAuth && usr_val is None ==> (r matches Err(e) && e@
            == spec_missing_user_msg(spec_user_var(params.creds))),
        params.creds != CredType::NoAuth && usr_val is Some && pwd_val is None ==> (r matches Err(
            e,
        ) && e@ == spec_missing_pwd_msg(spec_pwd_var(params.creds))),
        params.creds != CredType::NoAuth && usr_val is Some && pwd_val is Some ==> (r matches Ok(
            plan,
        ) && spec_plan_matches(plan, params) && plan.auth is Some
            && plan.auth->Some_0.username@ == usr_val->Some_0@
            && plan.auth->Some_0.password@ == pwd_val->Some_0@),
{
    let AppParameters { url, method, body, creds, timeout: _, ignoressl: _ } = params;
    let auth = match creds {
        CredType::NoAuth => None,
        CredType::Win => {
            match get_env_creds("windowsuser", usr_val, "windowspassword", pwd_val) {
                Ok(c) => Some(c),
                Err(e) => {
                    return Err(e);
                },
            }
        },
        CredType::Linux => {
            match get_env_creds("linuxuser", usr_val, "linuxpassword", pwd_val) {
                Ok(c) => Some(c),
                Err(e) => {
                    return Err(e);
                },
            }
        },
    };
    Ok(RequestPlan { method, url, auth, body })
}

} // verus!
