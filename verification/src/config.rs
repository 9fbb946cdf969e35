//! The settings of the agent.

use vstd::prelude::*;

verus! {

/// Port of the broker's TLS listener, taken where the settings name none.
pub const DEFAULT_PORT: u16 = 5671;

/// Where and as whom the agent reaches the broker.
#[derive(Clone)]
pub struct Configuration {
    pub username: String,
    pub password: String,
    pub host: String,
    pub port: u16,
    pub vhost: String,
    /// Path of the PEM file with the certificate authority that signed the
    /// broker's certificate.
    pub cafile: String,
}

/// The virtual host taken where the settings name none.
pub open spec fn spec_default_vhost() -> Seq<char> {
    "/"@
}

impl Configuration {
    /// The configuration that the settings describe.
    ///
    /// User, password, host and certificate authority have to be set; the
    /// port defaults to [`DEFAULT_PORT`] and the virtual host to `/`.
    pub fn from_settings(
        username: String,
        password: String,
        host: String,
        port: Option<u16>,
        vhost: Option<String>,
        cafile: String,
    ) -> (r: Configuration)
        ensures
            r.username@ == username@,
            r.password@ == password@,
            r.host@ == host@,
            r.port == match port {
                Some(p) => p,
                None => DEFAULT_PORT,
            },
            r.vhost@ == match vhost {
                Some(v) => v@,
                None => spec_default_vhost(),
            },
            r.cafile@ == cafile@,
    {
        let port = match port {
            Some(p) => p,
            None => DEFAULT_PORT,
        };
        let vhost = match vhost {
            Some(v) => v,
            None => "/".to_owned(),
        };
        Configuration { username, password, host, port, vhost, cafile }
    }
}

} // verus!
