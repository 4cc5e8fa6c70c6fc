use vstd::prelude::*;

use crate::text;

verus! {

/// Where RustDesk clients find the rendezvous, relay and API servers.
#[derive(Debug, Clone, PartialEq, Eq)]
pub struct ServerConfig {
    pub id_server: String,
    pub relay_server: String,
    pub api_server: String,
    pub public_key: String,
}

#[derive(Debug, Clone, Copy, PartialEq, Eq)]
pub enum ServerConfigValidationError {
    EmptyIdServer,
    EmptyRelayServer,
}

impl ServerConfigValidationError {
    /// The message shown to the operator.
    pub fn message(&self) -> (r: &'static str)
        ensures
            r@ == match self {
                ServerConfigValidationError::EmptyIdServer => "id_server must not be empty"@,
                ServerConfigValidationError::EmptyRelayServer => "relay_server must not be empty"@,
            },
    {
        match self {
            ServerConfigValidationError::EmptyIdServer => "id_server must not be empty",
            ServerConfigValidationError::EmptyRelayServer => "relay_server must not be empty",
        }
    }
}

/// What `validate_server_config` answers.
pub open spec fn server_config_verdict(c: ServerConfig) -> Result<(), ServerConfigValidationError> {
    if text::trim(c.id_server@).len() == 0 {
        Err(ServerConfigValidationError::EmptyIdServer)
    } else if text::trim(c.relay_server@).len() == 0 {
        Err(ServerConfigValidationError::EmptyRelayServer)
    } else {
        Ok(())
    }
}

pub fn validate_server_config(config: &ServerConfig) -> (r: Result<(), ServerConfigValidationError>)
    ensures
        r == server_config_verdict(*config),
{
    if text::trimmed_chars(config.id_server.as_str()).len() == 0 {
        return Err(ServerConfigValidationError::EmptyIdServer);
    }
    if text::trimmed_chars(config.relay_server.as_str()).len() == 0 {
        return Err(ServerConfigValidationError::EmptyRelayServer);
    }
    Ok(())
}

/// The placeholder configuration used until an operator saves one.
pub fn default_server_config() -> (r: ServerConfig)
    ensures
        r.id_server@ == "rd.example.com"@,
        r.relay_server@ == "rd.example.com"@,
        r.api_server@ == Seq::<char>::empty(),
        r.public_key@ == Seq::<char>::empty(),
{
    ServerConfig {
        id_server: String::from_str("rd.example.com"),
        relay_server: String::from_str("rd.example.com"),
        api_server: String::new(),
        public_key: String::new(),
    }
}

} // verus!
