//! The service's configuration.

use vstd::prelude::*;
use crate::lnurl::LnurlSubOpts;
use crate::phoenixd_client::PhoenixdSubOpts;

verus! {

/// Everything the service is configured with.
pub struct Cli {
    /// Address to listen on.
    pub listen_host: Option<String>,
    /// Port to listen on.
    pub listen_port: Option<String>,
    /// Domain used in callback URLs; by default the request's own host.
    pub domain_name: Option<String>,
    /// The user names that accept payments; `*` accepts every name.
    pub accepted_username: Option<Vec<String>>,
    /// How to reach phoenixd.
    pub phoenixd_opts: PhoenixdSubOpts,
    /// What the pay-request documents say.
    pub lnurl_opts: LnurlSubOpts,
    /// Whether to log at debug level.
    pub debug: bool,
}

} // verus!
