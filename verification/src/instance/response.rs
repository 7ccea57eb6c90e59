use crate::instance::ConnectionTable;
use vstd::prelude::*;

verus! {

/// What an instance answers to a command that asks for an answer.
#[derive(Debug)]
pub enum Response {
    /// The connections as they stood when the command was executed.
    ListConnections { connections: ConnectionTable },
}

} // verus!
