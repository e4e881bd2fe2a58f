//! Plain configuration data: the addresses to bind to and the ordered list
//! of redirect records, exactly as the configuration file gives them.

use vstd::prelude::*;
use vstd::string::StringExecFns;

verus! {

/// One redirect record as configuration declares it: a regex pattern over
/// the effective URL, a rewrite template with capture-group references, and
/// the HTTP status code to answer with on a match.
#[derive(Clone)]
pub struct ConfigRedirectRecord {
    pub re: String,
    pub rewrite_rule: String,
    pub status_code: u16,
}

/// The whole configuration: where the server should listen, and the redirect
/// records in declaration order.
pub struct Config {
    bind_to: Vec<String>,
    redirects: Vec<ConfigRedirectRecord>,
}

impl Config {
    /// The configured listen addresses, as a mathematical sequence.
    pub closed spec fn spec_bind_to(&self) -> Seq<String> {
        self.bind_to@
    }

    /// The configured redirect records, in declaration order.
    pub closed spec fn spec_redirects(&self) -> Seq<ConfigRedirectRecord> {
        self.redirects@
    }

    /// A fresh configuration with the default values.
    pub fn new() -> (r: Self)
        ensures
            r.spec_bind_to().len() == 1,
            r.spec_bind_to()[0]@ == "0.0.0.0:8080"@,
            r.spec_redirects().len() == 0,
    {
        Self::default()
    }

    /// A configuration holding exactly the given addresses and records.
    pub fn from_parts(bind_to: Vec<String>, redirects: Vec<ConfigRedirectRecord>) -> (r: Self)
        ensures
            r.spec_bind_to() == bind_to@,
            r.spec_redirects() == redirects@,
    {
        Config { bind_to, redirects }
    }

    pub fn get_bind_to(&self) -> (r: &Vec<String>)
        ensures
            r@ == self.spec_bind_to(),
    {
        &self.bind_to
    }

    pub fn get_redirects(&self) -> (r: &Vec<ConfigRedirectRecord>)
        ensures
            r@ == self.spec_redirects(),
    {
        &self.redirects
    }
}

impl Default for Config {
    /// The fallback configuration: listen on `0.0.0.0:8080`, redirect nothing.
    fn default() -> (r: Self)
        ensures
            r.spec_bind_to().len() == 1,
            r.spec_bind_to()[0]@ == "0.0.0.0:8080"@,
            r.spec_redirects().len() == 0,
    {
        Config { bind_to: vec![String::from_str("0.0.0.0:8080")], redirects: vec![] }
    }
}

} // verus!
