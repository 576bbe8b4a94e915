//! The commands that producers queue for the write worker.

use vstd::prelude::*;
use bytes::Bytes;
use crate::store::payload_view;

verus! {

/// A type of database operation.
#[derive(Clone, Copy, Debug, PartialEq, Eq, Structural)]
pub enum DatabaseOperation {
    Insert,
    Update,
    Delete,
    Close,
}

/// Represents a database command to be performed which may be executed in a task.
#[derive(Clone, Debug)]
pub struct DatabaseCommand {
    /// The database operation type.
    pub op_type: DatabaseOperation,
    /// The primary key for the operation.
    pub key: Option<String>,
    /// The data payload for the operation.
    pub payload: Option<Vec<Bytes>>,
}

/// What a command says, with its texts and byte strings as sequences.
pub struct CommandView {
    pub op_type: DatabaseOperation,
    pub key: Option<Seq<char>>,
    pub payload: Option<Seq<Seq<u8>>>,
}

impl View for DatabaseCommand {
    type V = CommandView;

    open spec fn view(&self) -> CommandView {
        CommandView {
            op_type: self.op_type,
            key: match self.key {
                Some(k) => Some(k@),
                None => None,
            },
            payload: match self.payload {
                Some(p) => Some(payload_view(p@)),
                None => None,
            },
        }
    }
}

impl DatabaseCommand {
    /// Creates a new [`DatabaseCommand`] instance.
    #[must_use]
    pub fn new(op_type: DatabaseOperation, key: String, payload: Option<Vec<Bytes>>) -> (r: Self)
        ensures
            r.op_type == op_type,
            r.key == Some(key),
            r.payload == payload,
    {
        Self { op_type, key: Some(key), payload }
    }

    /// Initialize a `Close` database command, this is meant to close the database cache channel.
    #[must_use]
    pub fn close() -> (r: Self)
        ensures
            r.op_type == DatabaseOperation::Close,
            r.key is None,
            r.payload is None,
    {
        Self { op_type: DatabaseOperation::Close, key: None, payload: None }
    }
}

/// The views of the commands of a sequence.
pub open spec fn command_views(commands: Seq<DatabaseCommand>) -> Seq<CommandView> {
    commands.map_values(|c: DatabaseCommand| c@)
}

} // verus!
