use vstd::prelude::*;

verus! {

/// Default base URL of the metrics backend.
pub const PROMETHEUS_URL_DEFAULT: &'static str = "http://localhost:9090/";

/// Default address the HTTP listener binds to.
pub const BIND_ADDRESS_DEFAULT: &'static str = "127.0.0.1:8080";

/// Process-wide configuration, built once at startup and read-only after that.
pub struct Config {
    pub prometheus_url: String,
    pub bind_address: String,
    pub domain_allowlist: Vec<String>,
}

pub fn prometheus_url_default() -> (r: String)
    ensures
        r@ == PROMETHEUS_URL_DEFAULT@,
{
    String::from_str(PROMETHEUS_URL_DEFAULT)
}

pub fn bind_address() -> (r: String)
    ensures
        r@ == BIND_ADDRESS_DEFAULT@,
{
    String::from_str(BIND_ADDRESS_DEFAULT)
}

pub fn domain_allowlist_default() -> (r: Vec<String>)
    ensures
        r@.len() == 0,
{
    Vec::new()
}

impl Config {
    /// Builds the configuration from the values that were set; each one that
    /// is absent takes its default.
    pub fn resolve(
        prometheus_url: Option<String>,
        bind_address: Option<String>,
        domain_allowlist: Option<Vec<String>>,
    ) -> (r: Config)
        ensures
            r.prometheus_url@ == (match prometheus_url {
                Some(u) => u@,
                None => PROMETHEUS_URL_DEFAULT@,
            }),
            r.bind_address@ == (match bind_address {
                Some(b) => b@,
                None => BIND_ADDRESS_DEFAULT@,
            }),
            r.domain_allowlist@ == (match domain_allowlist {
                Some(l) => l@,
                None => Seq::<String>::empty(),
            }),
    {
        let prometheus_url = match prometheus_url {
            Some(u) => u,
            None => prometheus_url_default(),
        };
        let bind_address = match bind_address {
            Some(b) => b,
            None => crate::config::bind_address(),
        };
        let domain_allowlist = match domain_allowlist {
            Some(l) => l,
            None => domain_allowlist_default(),
        };
        Config { prometheus_url, bind_address, domain_allowlist }
    }
}

} // verus!
