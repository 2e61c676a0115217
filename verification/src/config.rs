//! Settings computed from the environment's values, which the caller reads.
use vstd::prelude::*;
use vstd::string::*;

verus! {

/// The path under which the API is served.
pub const API_URL: &'static str = "/api/v1";

/// The address the server listens on: `host:port`, where a missing host is `localhost` and a
/// missing port is `3000`.
pub fn app_address(host: Option<String>, port: Option<String>) -> (address: String)
    ensures
        address@ == (match host {
            Some(h) => h@,
            None => "localhost"@,
        }) + ":"@ + (match port {
            Some(p) => p@,
            None => "3000"@,
        }),
{
    let host = match host {
        Some(h) => h,
        None => String::from_str("localhost"),
    };
    let port = match port {
        Some(p) => p,
        None => String::from_str("3000"),
    };
    host.concat(":").concat(port.as_str())
}

/// The url of the API on the application's url `app_url`.
pub fn api_url(app_url: String) -> (url: String)
    ensures
        url@ == app_url@ + API_URL@,
{
    app_url.concat(API_URL)
}

} // verus!
