//! Credential resolution: which environment-variable pair a credential mode
//! reads, and how the looked-up values become an HTTP Basic credential pair
//! or a failure naming the missing variable.
//!
//! The lookup itself is process I/O and stays with the caller; this module
//! decides the variable names and validates what the lookup returned.

use vstd::prelude::*;
use vstd::string::*;
use crate::params::CredType;

verus! {

/// An HTTP Basic credential pair read from the environment.
#[derive(Debug)]
pub struct Credentials {
    pub username: String,
    pub password: String,
}

/// The name of the username variable a credential mode reads.
pub open spec fn spec_user_var(c: CredType) -> Seq<char> {
    match c {
        CredType::Win => "windowsuser"@,
        CredType::Linux => "linuxuser"@,
        CredType::NoAuth => Seq::empty(),
    }
}

/// The name of the password variable a credential mode reads.
pub open spec fn spec_pwd_var(c: CredType) -> Seq<char> {
    match c {
        CredType::Win => "windowspassword"@,
        CredType::Linux => "linuxpassword"@,
        CredType::NoAuth => Seq::empty(),
    }
}

impl CredType {
    /// The environment-variable pair (username, password) this mode reads,
    /// or nothing for NoAuth, which performs no lookup.
    pub fn env_var_names(&self) -> (r: Option<(&'static str, &'static str)>)
        ensures
            *self == CredType::NoAuth <==> r is None,
            r matches Some(p) ==> p.0@ == spec_user_var(*self) && p.1@ == spec_pwd_var(*self),
    {
        match self {
            CredType::Win => Some(("windowsuser", "windowspassword")),
            CredType::Linux => Some(("linuxuser", "linuxpassword")),
            CredType::NoAuth => None,
        }
    }
}

/// The failure message for a username variable that is not set.
pub open spec fn spec_missing_user_msg(name: Seq<char>) -> Seq<char> {
    "Username["@ + name + "] Not in env: NotPresent"@
}

/// The failure message for a password variable that is not set.
pub open spec fn spec_missing_pwd_msg(name: Seq<char>) -> Seq<char> {
    "Password["@ + name + "] Not in env: NotPresent"@
}

/// Law: the failure message for a missing username variable names that
/// variable: the variable's name stands in the message right after the
/// nine characters of "Username[".
pub proof fn lemma_missing_user_msg_names_var(name: Seq<char>)
    ensures
        spec_missing_user_msg(name).subrange(9, 9 + name.len() as int) == name,
{
    reveal_strlit("Username[");
    reveal_strlit("] Not in env: NotPresent");
    assert(spec_missing_user_msg(name).subrange(9, 9 + name.len() as int) =~= name);
}

/// Law: the failure message for a missing password variable names that
/// variable: the variable's name stands in the message right after the
/// nine characters of "Password[".
pub proof fn lemma_missing_pwd_msg_names_var(name: Seq<char>)
    ensures
        spec_missing_pwd_msg(name).subrange(9, 9 + name.len() as int) == name,
{
    reveal_strlit("Password[");
    reveal_strlit("] Not in env: NotPresent");
    assert(spec_missing_pwd_msg(name).subrange(9, 9 + name.len() as int) =~= name);
}

/// Validates the environment lookups of one credential pair: `usr_val` and
/// `pwd_val` are what the lookups of the variables named `usr` and `pwd`
/// returned. Both must be present; the failure names the variable that was
/// missing, the username being checked first.
pub fn get_env_creds(usr: &str, usr_val: Option<String>, pwd: &str, pwd_val: Option<String>) -> (r:
    Result<Credentials, String>)
    ensures
        usr_val is None ==> (r matches Err(e) && e@ == spec_missing_user_msg(usr@)),
        usr_val is Some && pwd_val is None ==> (r matches Err(e) && e@ == spec_missing_pwd_msg(
            pwd@,
        )),
        r is Ok <==> usr_val is Some && pwd_val is Some,
        r matches Ok(c) ==> usr_val is Some && c.username@ == usr_val->Some_0@ && pwd_val is Some
            && c.password@ == pwd_val->Some_0@,
{
    let username = match usr_val {
        Some(val) => val,
        None => {
            let msg = String::from_str("Username[").concat(usr).concat("] Not in env: NotPresent");
            return Err(msg);
        },
    };
    let password = match pwd_val {
        Some(val) => val,
        None => {
            let msg = String::from_str("Password[").concat(pwd).concat("] Not in env: NotPresent");
            return Err(msg);
        },
    };
    Ok(Credentials { username, password })
}

} // verus!
