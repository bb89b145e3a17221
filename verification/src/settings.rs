//! What a server and a client are started with.
//!
//! Addresses and routes are handed to the program as values, so that
//! nothing in it depends on a global.

use vstd::prelude::*;
use crate::identity::DEV_HOSTNAME;
use crate::routes::{standard_routes, RouteTable, NOT_FOUND_BODY};

verus! {

/// The address the development server listens on.
pub const LISTEN_ADDRESS: &'static str = "127.0.0.1:4433";

/// The local address a client binds to: any address, any free port.
pub const CLIENT_BIND_ADDRESS: &'static str = "0.0.0.0:0";

/// What a server is started with.
pub struct ServerSettings {
    /// The address to listen on.
    pub listen: String,
    /// The routes to serve.
    pub routes: RouteTable,
}

/// What a client is started with.
pub struct ClientSettings {
    /// The local address to bind to.
    pub bind: String,
    /// The address of the server.
    pub server: String,
    /// The name the server is dialled by, which its certificate is issued for.
    pub server_name: String,
}

impl ServerSettings {
    /// The development server: the loopback address and the standard routes.
    pub fn standard() -> (settings: ServerSettings)
        ensures
            settings.listen@ == LISTEN_ADDRESS@,
            settings.routes@ == standard_routes(),
            settings.routes.fallback() == NOT_FOUND_BODY@,
    {
        ServerSettings { listen: LISTEN_ADDRESS.to_owned(), routes: RouteTable::standard() }
    }
}

impl ClientSettings {
    /// The client of the development server.
    pub fn standard() -> (settings: ClientSettings)
        ensures
            settings.bind@ == CLIENT_BIND_ADDRESS@,
            settings.server@ == LISTEN_ADDRESS@,
            settings.server_name@ == DEV_HOSTNAME@,
    {
        ClientSettings {
            bind: CLIENT_BIND_ADDRESS.to_owned(),
            server: LISTEN_ADDRESS.to_owned(),
            server_name: DEV_HOSTNAME.to_owned(),
        }
    }
}

} // verus!
