//! The settings that the service is started with.

use vstd::prelude::*;

verus! {

/// Where the service listens.
#[derive(Debug)]
pub struct HttpPort {
    pub port: u16,
}

/// How to reach the database that is exported. The settings are read once,
/// at start-up, and never change.
#[derive(Debug)]
pub struct MySQL {
    pub host: String,
    pub port: u16,
    pub user: String,
    pub password: String,
}

/// What a reader sees of the database settings.
pub struct MySQLView {
    pub host: Seq<char>,
    pub port: nat,
    pub user: Seq<char>,
    pub password: Seq<char>,
}

impl View for MySQL {
    type V = MySQLView;

    open spec fn view(&self) -> MySQLView {
        MySQLView {
            host: self.host@,
            port: self.port as nat,
            user: self.user@,
            password: self.password@,
        }
    }
}

impl Clone for MySQL {
    /// A copy with the same settings.
    fn clone(&self) -> (copy: MySQL)
        ensures
            copy@ == self@,
    {
        MySQL {
            host: self.host.clone(),
            port: self.port,
            user: self.user.clone(),
            password: self.password.clone(),
        }
    }
}

/// All settings of the service.
#[derive(Debug)]
pub struct Config {
    pub http_port: HttpPort,
    pub mysql: MySQL,
}

} // verus!
