//! Deterministic test-vector sessions: record the values a test observes the
//! first time it runs, then replay recorded constants and check outputs on
//! every later run.
//!
//! - [`json`]: the structured values that entries hold
//! - [`entry`]: entries and the documents that order them
//! - [`session`]: one session and the positional replay of its entries
//! - [`registry`]: the single active session, opening and closing it
//! - [`offload`]: values stored out of line in sidecar files
//! - [`vector`]: the interface that code under test calls
//! - [`laws`]: properties proved of every session

pub mod compress;
pub mod config;
pub mod entry;
pub mod error;
pub mod json;
pub mod laws;
pub mod location;
pub mod offload;
pub mod registry;
pub mod session;
mod text;
pub mod vector;

pub use config::{TestMode, TestVectorFileFormat};
pub use entry::{TestVectorData, TestVectorEntry, TestVectorEntryType};
pub use error::{MismatchField, TvError};
pub use json::{JsonNumber, JsonValue};
pub use registry::{
    finalize_tv_case, initialize_tv_case_from_file, process_next_entry, PersistPlan,
    SessionRegistry, TlsEnvGuard,
};
pub use session::TestVecEnv;
pub use vector::{
    initialize_values, TestValue, TestVector, TestVectorActive, TestVectorMomento, TestVectorNOP,
    TestVectorSet,
};
