//! The options of a connection: the credentials and the endpoint.

use vstd::prelude::*;

verus! {

/// What a connection is opened with.
#[derive(Debug)]
pub struct OracleConnectOptions {
    /// The user's name.
    pub username: String,
    /// The user's password.
    pub password: String,
    /// The native descriptor of the endpoint.
    pub connect_string: String,
}

impl Default for OracleConnectOptions {
    /// The options of a local test database.
    fn default() -> (r: Self)
        ensures
            r.username@ == "scott"@,
            r.password@ == "tiger"@,
            r.connect_string@ == "//localhost/XE"@,
    {
        OracleConnectOptions {
            username: "scott".to_owned(),
            password: "tiger".to_owned(),
            connect_string: "//localhost/XE".to_owned(),
        }
    }
}

} // verus!
