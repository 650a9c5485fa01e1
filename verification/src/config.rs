//! Where the server listens: the address text from the environment or the
//! default. Reading the environment and parsing the address are the
//! caller's.
use vstd::prelude::*;

verus! {

/// The environment variable that names the server's address.
pub const SERVER_ADDR_ENV: &'static str = "APS_SERVER_ADDR";

/// The address used when the variable is not set.
pub const DEFAULT_SERVER_ADDR: &'static str = "127.0.0.1:3000";

/// The address text to parse: the variable's value when it is set (and
/// readable), else the default.
pub fn server_addr_text(env_value: Option<String>) -> (r: String)
    ensures
        env_value matches Some(v) ==> r == v,
        env_value is None ==> r@ == DEFAULT_SERVER_ADDR@,
{
    match env_value {
        Some(v) => v,
        None => DEFAULT_SERVER_ADDR.to_owned(),
    }
}

} // verus!
