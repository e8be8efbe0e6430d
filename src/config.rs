//! How a session reads and writes its file, and whether it records or checks.

use vstd::prelude::*;

verus! {

/// File format used to read and write test vector files.
#[derive(Clone, Copy, Debug, PartialEq, Eq, Structural)]
pub enum TestVectorFileFormat {
    /// JSON file (`.json`).
    Json,
    /// YAML file (`.yaml` / `.yml`).
    Yaml,
    /// TOML file (`.toml`).
    Toml,
}

/// Execution mode of a session.
///
/// - `Init`: record observed entries and write the file if they changed
/// - `Check`: load the file and validate observed entries; constants are injected
#[derive(Clone, Copy, Debug, PartialEq, Eq, Structural)]
pub enum TestMode {
    Init,
    Check,
}

/// Equality of two strings by their characters.
fn str_eq(a: &str, b: &str) -> (r: bool)
    ensures
        r == (a@ == b@),
{
    a.to_owned() == b.to_owned()
}

impl TestMode {
    /// The mode that a setting names: `"init"` selects `Init`; `"check"`, any
    /// other text, or no setting at all selects `Check`.
    pub fn from_name(name: Option<&str>) -> (r: TestMode)
        ensures
            r == (if name is Some && name->Some_0@ == "init"@ {
                TestMode::Init
            } else {
                TestMode::Check
            }),
    {
        match name {
            Some(n) => if str_eq(n, "init") {
                TestMode::Init
            } else {
                TestMode::Check
            },
            None => TestMode::Check,
        }
    }
}

} // verus!
