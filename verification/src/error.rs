use vstd::prelude::*;

verus! {

/// The kinds of failure that the cache engine reports.
#[derive(Clone, Copy, Debug, PartialEq, Eq, Structural)]
pub enum CacheError {
    /// The key lacks the delimiter that separates the collection from the rest.
    InvalidKey,
    /// The operation is not defined for the collection or the index of the key.
    UnsupportedOp,
    /// The operation needs a payload element that the command does not carry.
    EmptyPayload,
    /// The write worker has gone away, so no command can be queued any more.
    ChannelSend,
    /// The store or the connection to it failed.
    TransportError,
    /// The engine refuses this kind of data altogether.
    Unsupported,
    /// The configuration names no database to connect to.
    NoDatabaseConfig,
    /// The payload encoding is neither of the two that are recognised.
    UnsupportedEncoding,
    /// The payload is not what its encoding says.
    Deserialize,
}

impl CacheError {
    /// A short fixed description of the failure, for log lines.
    pub fn describe(&self) -> (r: &'static str)
        ensures
            r@ == describe_error(*self),
    {
        match self {
            CacheError::InvalidKey => "Invalid `key`, missing a ':' delimiter",
            CacheError::UnsupportedOp => "Unsupported operation for the collection",
            CacheError::EmptyPayload => "Empty `payload`",
            CacheError::ChannelSend => "Failed to send to channel",
            CacheError::TransportError => "Transport error",
            CacheError::Unsupported => "Not supported by the Redis cache adapter",
            CacheError::NoDatabaseConfig => "No database config",
            CacheError::UnsupportedEncoding => "Unsupported encoding",
            CacheError::Deserialize => "Failed to deserialize `payload`",
        }
    }
}

/// The text that [`CacheError::describe`] returns for each kind.
pub open spec fn describe_error(e: CacheError) -> Seq<char> {
    match e {
        CacheError::InvalidKey => "Invalid `key`, missing a ':' delimiter"@,
        CacheError::UnsupportedOp => "Unsupported operation for the collection"@,
        CacheError::EmptyPayload => "Empty `payload`"@,
        CacheError::ChannelSend => "Failed to send to channel"@,
        CacheError::TransportError => "Transport error"@,
        CacheError::Unsupported => "Not supported by the Redis cache adapter"@,
        CacheError::NoDatabaseConfig => "No database config"@,
        CacheError::UnsupportedEncoding => "Unsupported encoding"@,
        CacheError::Deserialize => "Failed to deserialize `payload`"@,
    }
}

} // verus!
