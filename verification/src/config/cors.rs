//! Cross-origin resource sharing policy section. Its validation carries
//! the one real invariant of the configuration: allow-lists must be
//! non-empty, and credentialed requests cannot be combined with a
//! wildcard method list, which browsers forbid.

use vstd::prelude::*;
use vstd::string::*;
use crate::config::{ConfigSection, merged_bool, merged_u64};
use crate::error::EnvConfigError;
use crate::raw::{RawSection, RawValueV, sec_str_arr};
use crate::strutil::{contains_str, spec_contains_str};
use crate::raw::str_views;

verus! {

/// CORS policy configuration.
#[derive(Debug, Clone)]
pub struct CorsConfig {
    /// Allowed origins; `*` stands for any origin.
    pub allow_origins: Vec<String>,
    /// Allowed request methods; `*` stands for any method.
    pub allow_methods: Vec<String>,
    /// Allowed request headers.
    pub allow_headers: Vec<String>,
    /// Whether credentials (cookies, authorization) may cross origins.
    pub allow_credentials: bool,
    /// Response headers exposed to the client.
    pub expose_headers: Vec<String>,
    /// Preflight cache duration in seconds.
    pub max_age: u64,
}

/// Abstract value of a `CorsConfig`.
#[verifier::ext_equal]
pub ghost struct CorsConfigV {
    pub allow_origins: Seq<Seq<char>>,
    pub allow_methods: Seq<Seq<char>>,
    pub allow_headers: Seq<Seq<char>>,
    pub allow_credentials: bool,
    pub expose_headers: Seq<Seq<char>>,
    pub max_age: u64,
}

impl View for CorsConfig {
    type V = CorsConfigV;

    open spec fn view(&self) -> CorsConfigV {
        CorsConfigV {
            allow_origins: str_views(self.allow_origins@),
            allow_methods: str_views(self.allow_methods@),
            allow_headers: str_views(self.allow_headers@),
            allow_credentials: self.allow_credentials,
            expose_headers: str_views(self.expose_headers@),
            max_age: self.max_age,
        }
    }
}

/// The built-in CORS defaults: any origin, a standard method and header
/// set, credentials disabled, an hour of preflight cache.
pub open spec fn spec_cors_default() -> CorsConfigV {
    CorsConfigV {
        allow_origins: seq!["*"@],
        allow_methods: seq!["GET"@, "POST"@, "PUT"@, "DELETE"@, "OPTIONS"@, "HEAD"@],
        allow_headers: seq!["Authorization"@, "Content-Type"@, "Accept"@, "X-Request-ID"@],
        allow_credentials: false,
        expose_headers: seq!["Content-Type"@, "X-Total-Count"@],
        max_age: 3600,
    }
}

impl Default for CorsConfig {
    fn default() -> (r: Self)
        ensures
            r@ == spec_cors_default(),
    {
        let mut allow_origins: Vec<String> = Vec::new();
        allow_origins.push(String::from_str("*"));
        let mut allow_methods: Vec<String> = Vec::new();
        allow_methods.push(String::from_str("GET"));
        allow_methods.push(String::from_str("POST"));
        allow_methods.push(String::from_str("PUT"));
        allow_methods.push(String::from_str("DELETE"));
        allow_methods.push(String::from_str("OPTIONS"));
        allow_methods.push(String::from_str("HEAD"));
        let mut allow_headers: Vec<String> = Vec::new();
        allow_headers.push(String::from_str("Authorization"));
        allow_headers.push(String::from_str("Content-Type"));
        allow_headers.push(String::from_str("Accept"));
        allow_headers.push(String::from_str("X-Request-ID"));
        let mut expose_headers: Vec<String> = Vec::new();
        expose_headers.push(String::from_str("Content-Type"));
        expose_headers.push(String::from_str("X-Total-Count"));
        let r = CorsConfig {
            allow_origins,
            allow_methods,
            allow_headers,
            allow_credentials: false,
            expose_headers,
            max_age: 3600,
        };
        proof {
            assert(str_views(r.allow_origins@) =~= seq!["*"@]);
            assert(str_views(r.allow_methods@) =~= seq![
                "GET"@,
                "POST"@,
                "PUT"@,
                "DELETE"@,
                "OPTIONS"@,
                "HEAD"@,
            ]);
            assert(str_views(r.allow_headers@) =~= seq![
                "Authorization"@,
                "Content-Type"@,
                "Accept"@,
                "X-Request-ID"@,
            ]);
            assert(str_views(r.expose_headers@) =~= seq!["Content-Type"@, "X-Total-Count"@]);
            assert(r@ =~= spec_cors_default());
        }
        r
    }
}

/// The validation verdict on a merged CORS section: empty allow-lists
/// are rejected, and so is combining credentials with wildcard methods.
pub open spec fn spec_cors_validate(v: CorsConfigV) -> Result<(), Seq<char>> {
    if v.allow_origins.len() == 0 {
        Err("CORS allow_origins must not be empty"@)
    } else if v.allow_methods.len() == 0 {
        Err("CORS allow_methods must not be empty"@)
    } else if v.allow_headers.len() == 0 {
        Err("CORS allow_headers must not be empty"@)
    } else if v.allow_credentials && v.allow_methods.contains("*"@) {
        Err(
            "Invalid CORS configuration: Cannot combine `Access-Control-Allow-Credentials: true` with `Access-Control-Allow-Methods: *`"@,
        )
    } else {
        Ok(())
    }
}

impl ConfigSection for CorsConfig {
    open spec fn spec_name() -> Seq<char> {
        "cors"@
    }

    open spec fn spec_merged(prior: CorsConfigV, s: Seq<(Seq<char>, RawValueV)>) -> CorsConfigV {
        CorsConfigV {
            allow_origins: match sec_str_arr(s, "allow_origins"@) {
                Some(ts) => ts,
                None => prior.allow_origins,
            },
            allow_methods: match sec_str_arr(s, "allow_methods"@) {
                Some(ts) => ts,
                None => prior.allow_methods,
            },
            allow_headers: match sec_str_arr(s, "allow_headers"@) {
                Some(ts) => ts,
                None => prior.allow_headers,
            },
            allow_credentials: merged_bool(s, "allow_credentials"@, prior.allow_credentials),
            expose_headers: match sec_str_arr(s, "expose_headers"@) {
                Some(ts) => ts,
                None => prior.expose_headers,
            },
            max_age: merged_u64(s, "max_age"@, prior.max_age),
        }
    }

    open spec fn spec_validate(v: CorsConfigV) -> Result<(), Seq<char>> {
        spec_cors_validate(v)
    }

    fn section_name(&self) -> (r: &'static str) {
        "cors"
    }

    fn load_from_value(&mut self, v: &RawSection) -> (r: Result<(), String>) {
        if let Some(ts) = v.get_str_arr("allow_origins") {
            self.allow_origins = ts;
        }
        if let Some(ts) = v.get_str_arr("allow_methods") {
            self.allow_methods = ts;
        }
        if let Some(ts) = v.get_str_arr("allow_headers") {
            self.allow_headers = ts;
        }
        if let Some(b) = v.get_bool("allow_credentials") {
            self.allow_credentials = b;
        }
        if let Some(ts) = v.get_str_arr("expose_headers") {
            self.expose_headers = ts;
        }
        if let Some(n) = v.get_int("max_age") {
            if 0 <= n {
                self.max_age = n as u64;
            }
        }
        Ok(())
    }

    fn validate(&self) -> (r: Result<(), String>) {
        proof {
            lemma_contains_str_view(self.allow_methods@, "*"@);
        }
        if self.allow_origins.is_empty() {
            return Err(String::from_str("CORS allow_origins must not be empty"));
        }
        if self.allow_methods.is_empty() {
            return Err(String::from_str("CORS allow_methods must not be empty"));
        }
        if self.allow_headers.is_empty() {
            return Err(String::from_str("CORS allow_headers must not be empty"));
        }
        if self.allow_credentials && contains_str(&self.allow_methods, "*") {
            return Err(
                String::from_str(
                    "Invalid CORS configuration: Cannot combine `Access-Control-Allow-Credentials: true` with `Access-Control-Allow-Methods: *`",
                ),
            );
        }
        Ok(())
    }
}

/// Law: a policy that allows credentials while its method list holds the
/// wildcard always fails validation with the documented message, and the
/// same policy with credentials disabled passes.
pub proof fn lemma_cors_credentials_wildcard(v: CorsConfigV)
    requires
        v.allow_origins.len() > 0,
        v.allow_methods.len() > 0,
        v.allow_headers.len() > 0,
        v.allow_methods.contains("*"@),
    ensures
        spec_cors_validate(CorsConfigV { allow_credentials: true, ..v }) == Err::<(), Seq<char>>(
            "Invalid CORS configuration: Cannot combine `Access-Control-Allow-Credentials: true` with `Access-Control-Allow-Methods: *`"@,
        ),
        spec_cors_validate(CorsConfigV { allow_credentials: false, ..v }) is Ok,
{
}

/// Law: a policy whose origin, method or header allow-list is empty
/// fails validation, whatever the other fields hold.
pub proof fn lemma_cors_empty_lists_rejected(v: CorsConfigV)
    requires
        v.allow_origins.len() == 0 || v.allow_methods.len() == 0 || v.allow_headers.len() == 0,
    ensures
        spec_cors_validate(v) is Err,
{
}

/// Membership over a list of strings agrees with membership over its
/// views.
pub proof fn lemma_contains_str_view(ss: Seq<String>, x: Seq<char>)
    ensures
        spec_contains_str(ss, x) == str_views(ss).contains(x),
{
    if spec_contains_str(ss, x) {
        let i = choose|i: int| 0 <= i < ss.len() && ss[i]@ == x;
        assert(str_views(ss)[i] == x);
    }
    if str_views(ss).contains(x) {
        let i = choose|i: int| 0 <= i < str_views(ss).len() && str_views(ss)[i] == x;
        assert(ss[i]@ == x);
    }
}

impl CorsConfig {
    /// Whether the method allow-list holds the wildcard.
    pub fn wildcard_methods(&self) -> (r: bool)
        ensures
            r == self@.allow_methods.contains("*"@),
    {
        proof {
            lemma_contains_str_view(self.allow_methods@, "*"@);
        }
        contains_str(&self.allow_methods, "*")
    }

    /// Whether the origin allow-list holds the wildcard.
    pub fn wildcard_origins(&self) -> (r: bool)
        ensures
            r == self@.allow_origins.contains("*"@),
    {
        proof {
            lemma_contains_str_view(self.allow_origins@, "*"@);
        }
        contains_str(&self.allow_origins, "*")
    }

    /// The check a CORS layer builder makes before touching the policy:
    /// credentialed requests may not be combined with wildcard methods.
    pub fn check_credentials_wildcard(&self) -> (r: Result<(), EnvConfigError>)
        ensures
            match r {
                Ok(_) => !(self@.allow_credentials && self@.allow_methods.contains("*"@)),
                Err(e) => self@.allow_credentials && self@.allow_methods.contains("*"@) && e@
                    == crate::error::EnvConfigErrorV::InvalidConfig(
                    "Cannot combine `Access-Control-Allow-Credentials: true` with `Access-Control-Allow-Methods: *`"@,
                ),
            },
    {
        if self.allow_credentials && self.wildcard_methods() {
            Err(
                EnvConfigError::InvalidConfig(
                    String::from_str(
                        "Cannot combine `Access-Control-Allow-Credentials: true` with `Access-Control-Allow-Methods: *`",
                    ),
                ),
            )
        } else {
            Ok(())
        }
    }
}

} // verus!
