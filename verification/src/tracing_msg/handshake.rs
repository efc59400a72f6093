//! What a client says of itself when it joins a session.

use super::query_map::MsgFormat;
use super::{clone_text, Role};
use vstd::prelude::*;

verus! {

/// The roles a connecting client can ask for. The host is no client.
#[derive(Debug, Copy, Clone, Eq, PartialEq, Hash, Structural)]
pub enum ClientRole {
    Pusher,
    Observer,
    Director,
}

impl ClientRole {
    /// The same role among all roles.
    pub open spec fn role(self) -> Role {
        match self {
            ClientRole::Pusher => Role::Pusher,
            ClientRole::Observer => Role::Observer,
            ClientRole::Director => Role::Director,
        }
    }

    pub open spec fn spec_can_push(&self) -> bool {
        self.role().spec_can_push()
    }

    pub open spec fn spec_can_observe(&self) -> bool {
        self.role().spec_can_observe()
    }

    /// The same role among all roles.
    pub fn to_role(self) -> (role: Role)
        ensures
            role == self.role(),
    {
        match self {
            ClientRole::Pusher => Role::Pusher,
            ClientRole::Observer => Role::Observer,
            ClientRole::Director => Role::Director,
        }
    }

    #[verifier::when_used_as_spec(spec_can_push)]
    pub fn can_push(&self) -> (allowed: bool)
        ensures
            allowed == self.spec_can_push(),
    {
        match self {
            Self::Observer => false,
            _ => true,
        }
    }

    #[verifier::when_used_as_spec(spec_can_observe)]
    pub fn can_observe(&self) -> (allowed: bool)
        ensures
            allowed == self.spec_can_observe(),
    {
        match self {
            Self::Pusher => false,
            _ => true,
        }
    }
}

/// The greeting of a client: its name and, where it gives one, a description
/// of the process it runs in, as JSON text.
#[derive(Debug, Eq, PartialEq)]
pub struct HelloMsg {
    pub client_name: String,
    pub proc_env: Option<String>,
}

impl Clone for HelloMsg {
    fn clone(&self) -> (copy: Self)
        ensures
            copy == *self,
    {
        HelloMsg { client_name: self.client_name.clone(), proc_env: clone_text(&self.proc_env) }
    }
}

/// The greeting together with the format the client will speak.
#[derive(Debug, Clone, Eq, PartialEq)]
pub struct Handshake {
    pub client_name: String,
    pub msg_format: MsgFormat,
    pub proc_env: Option<String>,
}

} // verus!
