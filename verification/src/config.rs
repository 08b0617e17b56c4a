//! Configuration for one pipeline run: database credentials, host
//! identity and backup locations.  Loaded once by the caller and passed
//! by reference, read-only, to every stage that needs it.

use vstd::prelude::*;

verus! {

/// Everything one pipeline run needs to know.  All values are required;
/// loading and validating them is the caller's concern.
pub struct BorgFluxConfig {
    /// Base URL of the time-series database.
    pub influx_url: String,
    /// Bearer token for the database's write endpoint.
    pub influx_token: String,
    /// Organization identifier, sent as a query parameter.
    pub influx_org: String,
    /// Bucket identifier, sent as a query parameter.
    pub influx_bucket: String,
    /// Identifier of the host this agent reports for.
    pub hostname: String,
    /// Locator of the backup repository.
    pub borg_repository: String,
    /// Path of the directory to back up.
    pub borg_source_path: String,
}

/// The write endpoint for one configuration: the database URL followed by
/// the versioned write path, bucket and organization, and the declaration
/// that timestamps carry second precision.
pub open spec fn api_url_of(cfg: BorgFluxConfig) -> Seq<char> {
    cfg.influx_url@ + "/api/v2/write?bucket="@ + cfg.influx_bucket@ + "&org="@ + cfg.influx_org@
        + "&precision=s"@
}

/// The value of the Authorization header: the token scheme word followed
/// by the configured token.
pub open spec fn auth_header_of(cfg: BorgFluxConfig) -> Seq<char> {
    "Token "@ + cfg.influx_token@
}

impl BorgFluxConfig {
    /// Builds the URL of the database's write endpoint.
    pub fn api_url(&self) -> (r: String)
        ensures
            r@ == api_url_of(*self),
    {
        let mut url = self.influx_url.clone();
        url.append("/api/v2/write?bucket=");
        url.append(self.influx_bucket.as_str());
        url.append("&org=");
        url.append(self.influx_org.as_str());
        url.append("&precision=s");
        url
    }

    /// Builds the value of the Authorization header for the write endpoint.
    pub fn auth_header(&self) -> (r: String)
        ensures
            r@ == auth_header_of(*self),
    {
        let mut header = String::from_str("Token ");
        header.append(self.influx_token.as_str());
        header
    }
}

} // verus!
