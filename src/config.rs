//! Process configuration, supplied once at start.
use vstd::prelude::*;
use vstd::string::*;
use crate::decimal::{decimal, decimal_string};

verus! {

pub struct Config {
    pub database_url: String,
    pub redis_url: String,
    pub server_host: String,
    pub server_port: u16,
    pub jwt_secret: String,
    pub telegram_bot_token: String,
    pub max_file_size: usize,
    pub upload_dir: String,
}

impl Config {
    /// The address to listen on: `<host>:<port>`.
    pub fn server_address(&self) -> (r: String)
        ensures
            r@ == self.server_host@ + seq![':'] + decimal(self.server_port as int),
    {
        let mut out = self.server_host.clone();
        proof {
            reveal_strlit(":");
        }
        out.append(":");
        let port = decimal_string(self.server_port as i64);
        out.append(port.as_str());
        out
    }
}

} // verus!
