//! Option validation: turning the flat option set read from the command line
//! into a typed, immutable configuration for one probe invocation.

use vstd::prelude::*;
use vstd::string::*;

verus! {

/// The HTTP methods the probe supports.
#[derive(Clone, Copy, Debug, PartialEq, Eq, Structural)]
pub enum HttpMethod {
    Get,
    Post,
    Head,
    Options,
}

impl HttpMethod {
    /// The canonical upper-case name of the method on the wire.
    pub open spec fn spec_name(self) -> Seq<char> {
        match self {
            HttpMethod::Get => "GET"@,
            HttpMethod::Post => "POST"@,
            HttpMethod::Head => "HEAD"@,
            HttpMethod::Options => "OPTIONS"@,
        }
    }

    pub fn as_str(&self) -> (r: &'static str)
        ensures
            r@ == self.spec_name(),
    {
        match self {
            HttpMethod::Get => "GET",
            HttpMethod::Post => "POST",
            HttpMethod::Head => "HEAD",
            HttpMethod::Options => "OPTIONS",
        }
    }
}

/// Which environment-variable pair, if any, supplies HTTP Basic credentials.
#[derive(Clone, Copy, Debug, PartialEq, Eq, Structural)]
pub enum CredType {
    Win,
    Linux,
    NoAuth,
}

impl Default for CredType {
    fn default() -> (r: Self)
        ensures
            r == CredType::NoAuth,
    {
        CredType::NoAuth
    }
}

/// `s` equals a word ignoring ASCII case, the word being given in its
/// upper-case spelling `up` and its lower-case spelling `lo`: at every
/// position `s` holds either the upper-case or the lower-case letter.
pub open spec fn eq_ignore_case(s: Seq<char>, up: Seq<char>, lo: Seq<char>) -> bool {
    s.len() == up.len() && forall|j: int| 0 <= j < s.len() ==> s[j] == up[j] || s[j] == lo[j]
}

/// Compares `s` against a word spelled out in upper case (`up`) and lower
/// case (`lo`), accepting any mixture of the two at each position.
fn str_eq_ignore_case(s: &str, up: &str, lo: &str) -> (r: bool)
    requires
        up@.len() == lo@.len(),
    ensures
        r == eq_ignore_case(s@, up@, lo@),
{
    let n: usize = s.unicode_len();
    let m: usize = up.unicode_len();
    if n != m {
        return false;
    }
    let mut i: usize = 0;
    while i < n
        invariant
            i <= n,
            n == s@.len(),
            n == up@.len(),
            up@.len() == lo@.len(),
            forall|j: int| 0 <= j < i ==> s@[j] == up@[j] || s@[j] == lo@[j],
        decreases n - i,
    {
        let c = s.get_char(i);
        let cu = up.get_char(i);
        let cl = lo.get_char(i);
        if c != cu && c != cl {
            assert(!(s@[i as int] == up@[i as int] || s@[i as int] == lo@[i as int]));
            return false;
        }
        i += 1;
    }
    true
}

/// The method a raw option string resolves to: a case-insensitive match
/// against the supported set, or nothing if the string is outside it.
pub open spec fn spec_parse_method(s: Seq<char>) -> Option<HttpMethod> {
    if eq_ignore_case(s, "GET"@, "get"@) {
        Some(HttpMethod::Get)
    } else if eq_ignore_case(s, "POST"@, "post"@) {
        Some(HttpMethod::Post)
    } else if eq_ignore_case(s, "HEAD"@, "head"@) {
        Some(HttpMethod::Head)
    } else if eq_ignore_case(s, "OPTIONS"@, "options"@) {
        Some(HttpMethod::Options)
    } else {
        None
    }
}

/// Resolves a raw method string case-insensitively, or reports that it is
/// unsupported.
pub fn parse_method(s: &str) -> (r: Option<HttpMethod>)
    ensures
        r == spec_parse_method(s@),
{
    proof {
        reveal_strlit("GET");
        reveal_strlit("get");
        reveal_strlit("POST");
        reveal_strlit("post");
        reveal_strlit("HEAD");
        reveal_strlit("head");
        reveal_strlit("OPTIONS");
        reveal_strlit("options");
    }
    if str_eq_ignore_case(s, "GET", "get") {
        Some(HttpMethod::Get)
    } else if str_eq_ignore_case(s, "POST", "post") {
        Some(HttpMethod::Post)
    } else if str_eq_ignore_case(s, "HEAD", "head") {
        Some(HttpMethod::Head)
    } else if str_eq_ignore_case(s, "OPTIONS", "options") {
        Some(HttpMethod::Options)
    } else {
        None
    }
}

/// Law: a method string resolves to GET exactly when it spells the word
/// "get" ignoring ASCII case; every string outside the supported set
/// resolves to nothing.
pub proof fn lemma_get_case_insensitive(s: Seq<char>)
    ensures
        spec_parse_method(s) == Some(HttpMethod::Get) <==> (s.len() == 3 && (s[0] == 'G' || s[0]
            == 'g') && (s[1] == 'E' || s[1] == 'e') && (s[2] == 'T' || s[2] == 't')),
{
    reveal_strlit("GET");
    reveal_strlit("get");
    reveal_strlit("POST");
    reveal_strlit("post");
    reveal_strlit("HEAD");
    reveal_strlit("head");
    reveal_strlit("OPTIONS");
    reveal_strlit("options");
}

/// The flat option set as the argument parser hands it over, before any
/// validation.
#[derive(Debug)]
pub struct RawOptions {
    pub url: Option<String>,
    pub method: Option<String>,
    pub body: Option<String>,
    pub linux_creds: bool,
    /// Accepted on the command line but never consulted: the Linux flag is
    /// checked first and the Windows flag is otherwise ignored, a quirk of
    /// the documented interface that is preserved here.
    pub windows_creds: bool,
    pub ignoressl: bool,
    pub timeout: Option<i32>,
}

/// The typed configuration of one probe invocation; built once by
/// validation and immutable thereafter.
#[derive(Debug)]
pub struct AppParameters {
    pub url: String,
    pub method: HttpMethod,
    pub body: Option<String>,
    pub creds: CredType,
    /// Parsed from the command line but not applied to the transport call.
    pub timeout: i32,
    pub ignoressl: bool,
}

impl Default for AppParameters {
    fn default() -> (r: Self)
        ensures
            r.url@ == "http://127.0.0.1"@,
            r.method == HttpMethod::Get,
            r.body is None,
            r.creds == CredType::NoAuth,
            r.timeout == 30,
            r.ignoressl == false,
    {
        AppParameters {
            url: String::from_str("http://127.0.0.1"),
            method: HttpMethod::Get,
            body: None,
            creds: CredType::default(),
            timeout: 30,
            ignoressl: false,
        }
    }
}

/// The view of an optional owned string.
pub open spec fn opt_str_view(o: Option<String>) -> Option<Seq<char>> {
    match o {
        Some(s) => Some(s@),
        None => None,
    }
}

/// The method an absent or present raw method option resolves to: the
/// default method is GET.
pub open spec fn spec_method_of(m: Option<Seq<char>>) -> Option<HttpMethod> {
    match m {
        Some(s) => spec_parse_method(s),
        None => Some(HttpMethod::Get),
    }
}

/// The target URL an absent or present raw URL option resolves to.
pub open spec fn spec_url_of(u: Option<Seq<char>>) -> Seq<char> {
    match u {
        Some(s) => s,
        None => "http://127.0.0.1"@,
    }
}

/// The timeout an absent or present raw timeout option resolves to.
pub open spec fn spec_timeout_of(t: Option<i32>) -> i32 {
    match t {
        Some(v) => v,
        None => 30,
    }
}

/// The credential mode the flags resolve to. The Linux flag alone decides:
/// if it is set the mode is LinuxEnv, whether or not the Windows flag is
/// also set; without it the mode is NoAuth.
pub open spec fn spec_creds_of(linux_creds: bool) -> CredType {
    if linux_creds {
        CredType::Linux
    } else {
        CredType::NoAuth
    }
}

/// Why validation rejects an option set, if it does: an unsupported method
/// string, or method POST without a body. An unsupported method is reported
/// even when the body is also missing.
pub open spec fn spec_validation_error(m: Option<Seq<char>>, has_body: bool) -> Option<Seq<char>> {
    match spec_method_of(m) {
        None => Some("Invalid Method (GET|POST)"@),
        Some(mth) => if mth == HttpMethod::Post && !has_body {
            Some("POST requires body"@)
        } else {
            None
        },
    }
}

/// Law: a method string outside the supported set is rejected with exactly
/// the message "Invalid Method (GET|POST)", whether or not a body is given.
pub proof fn lemma_invalid_method_rejected(m: Seq<char>, has_body: bool)
    requires
        spec_parse_method(m) is None,
    ensures
        spec_validation_error(Some(m), has_body) == Some("Invalid Method (GET|POST)"@),
{
}

/// Law: with method POST, validation succeeds exactly when a body is given
/// (any body, the empty string included), and a missing body is rejected
/// with exactly the message "POST requires body".
pub proof fn lemma_post_requires_body(m: Option<Seq<char>>, has_body: bool)
    requires
        spec_method_of(m) == Some(HttpMethod::Post),
    ensures
        spec_validation_error(m, has_body) is None <==> has_body,
        !has_body ==> spec_validation_error(m, has_body) == Some("POST requires body"@),
{
}

impl AppParameters {
    /// Validates the flat option set into a typed configuration, or rejects
    /// it with a descriptive message. Every field of the result is pinned
    /// down: URL, timeout and body fall back to their defaults when absent,
    /// the method string is matched case-insensitively, and the credential
    /// mode follows the Linux flag alone.
    pub fn from_options(opts: RawOptions) -> (r: Result<AppParameters, String>)
        ensures
            r is Err <==> spec_validation_error(
                opt_str_view(opts.method),
                opts.body is Some,
            ) is Some,
            r matches Err(e) ==> Some(e@) == spec_validation_error(
                opt_str_view(opts.method),
                opts.body is Some,
            ),
            r matches Ok(p) ==> {
                &&& Some(p.method) == spec_method_of(opt_str_view(opts.method))
                &&& p.url@ == spec_url_of(opt_str_view(opts.url))
                &&& opt_str_view(p.body) == opt_str_view(opts.body)
                &&& p.creds == spec_creds_of(opts.linux_creds)
                &&& p.ignoressl == opts.ignoressl
                &&& p.timeout == spec_timeout_of(opts.timeout)
            },
    {
        let RawOptions { url, method, body, linux_creds, windows_creds: _, ignoressl, timeout } =
            opts;
        let mut retval = AppParameters::default();

        if linux_creds {
            retval.creds = CredType::Linux;
        }

        if let Some(val) = url {
            retval.url = val;
        }

        match method {
            Some(val) => {
                match parse_method(val.as_str()) {
                    Some(m) => {
                        retval.method = m;
                    },
                    None => {
                        return Err(String::from_str("Invalid Method (GET|POST)"));
                    },
                }
            },
            None => {},
        }

        if ignoressl {
            retval.ignoressl = true;
        }

        if let Some(t) = timeout {
            retval.timeout = t;
        }

        match body {
            Some(val) => {
                retval.body = Some(val);
            },
            None => {
                if retval.method == HttpMethod::Post {
                    return Err(String::from_str("POST requires body"));
                }
            },
        }

        Ok(retval)
    }
}

} // verus!
