//! The ways a session can fail.

use vstd::prelude::*;

use crate::entry::TestVectorEntry;

verus! {

/// Which compared field of an entry differed from the recording.
#[derive(Clone, Copy, Debug, PartialEq, Eq, Structural)]
pub enum MismatchField {
    Name,
    EntryType,
    Value,
}

/// An error of a test vector session. None is transient: each ends the session.
#[derive(Debug)]
pub enum TvError {
    /// A session was opened while another one was still active.
    AlreadyActive { active_path: String },
    /// No session is active.
    NotInitialized,
    /// The file, or the sidecar of an offloaded value, is missing or unreadable.
    Load { message: String },
    /// More entries were observed than the recording holds.
    MissingEntry { observed: TestVectorEntry },
    /// An observed entry differs from the recorded one at its position.
    Mismatch { field: MismatchField, loaded: TestVectorEntry, observed: TestVectorEntry },
    /// A constant could not be read back right after it was serialized.
    SerializationRoundTrip { message: String },
    /// A value could not be serialized.
    Serialization { message: String },
    /// A recorded constant could not be deserialized.
    Deserialization { message: String },
    /// The recording could not be persisted.
    Write { message: String },
}

} // verus!
