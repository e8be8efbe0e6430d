//! A session over one test vector file, and the positional replay of entries.

use vstd::prelude::*;

use crate::config::{TestMode, TestVectorFileFormat};
use crate::entry::{EntryModel, TestVectorData, TestVectorEntry, TestVectorEntryType};
use crate::error::{MismatchField, TvError};
use crate::json::{JsonData, JsonValue};

verus! {

/// What processing one observed entry amounts to.
pub enum StepOutcome {
    /// The value handed back to the caller for a constant.
    Replay(JsonData),
    /// An output that passes, or is only recorded.
    Pass,
    /// The recording has no entry at this position.
    MissingEntry,
    /// The recorded entry at this position has another name.
    NameMismatch,
    /// The recorded entry at this position has another kind.
    KindMismatch,
    /// The recorded output at this position has another value.
    ValueMismatch,
}

impl StepOutcome {
    pub open spec fn is_error(self) -> bool {
        !(self is Replay || self is Pass)
    }
}

/// The outcome of observing `observed` as the entry at position `index`, in
/// `mode`, against the `loaded` recording.
///
/// `Init` never compares: a constant hands back its own value. `Check` needs a
/// recorded entry at the position with the same name and kind; an output must
/// also have the same value, while a constant hands back the recorded value.
pub open spec fn step_outcome(
    mode: TestMode,
    loaded: Seq<EntryModel>,
    index: int,
    observed: EntryModel,
) -> StepOutcome {
    match mode {
        TestMode::Init => if observed.entry_type == TestVectorEntryType::Const {
            StepOutcome::Replay(observed.value)
        } else {
            StepOutcome::Pass
        },
        TestMode::Check => if !(0 <= index < loaded.len()) {
            StepOutcome::MissingEntry
        } else {
            let recorded = loaded[index];
            if recorded.name != observed.name {
                StepOutcome::NameMismatch
            } else if recorded.entry_type != observed.entry_type {
                StepOutcome::KindMismatch
            } else if recorded.entry_type == TestVectorEntryType::Output {
                if recorded.value != observed.value {
                    StepOutcome::ValueMismatch
                } else {
                    StepOutcome::Pass
                }
            } else {
                StepOutcome::Replay(recorded.value)
            }
        },
    }
}

/// Whether `r` is what processing `observed` returns when the step amounts to
/// `outcome`; `loaded` is the recorded entry at its position, if any.
pub open spec fn result_matches(
    r: Result<Option<JsonValue>, TvError>,
    outcome: StepOutcome,
    loaded: Option<EntryModel>,
    observed: EntryModel,
) -> bool {
    match outcome {
        StepOutcome::Replay(v) => r matches Ok(Some(x)) && x@ == v,
        StepOutcome::Pass => r matches Ok(None),
        StepOutcome::MissingEntry => r matches Err(TvError::MissingEntry { observed: o })
            && o@ == observed,
        StepOutcome::NameMismatch => r matches Err(TvError::Mismatch { field, loaded: l, observed: o })
            && field == MismatchField::Name && Some(l@) == loaded && o@ == observed,
        StepOutcome::KindMismatch => r matches Err(TvError::Mismatch { field, loaded: l, observed: o })
            && field == MismatchField::EntryType && Some(l@) == loaded && o@ == observed,
        StepOutcome::ValueMismatch => r matches Err(TvError::Mismatch { field, loaded: l, observed: o })
            && field == MismatchField::Value && Some(l@) == loaded && o@ == observed,
    }
}

/// The model of a session.
pub struct SessionModel {
    pub path: Seq<char>,
    pub format: TestVectorFileFormat,
    pub mode: TestMode,
    pub loaded: Seq<EntryModel>,
    pub recorded: Seq<EntryModel>,
}

/// The recorded entry at `index`, if there is one.
pub open spec fn entry_at(entries: Seq<EntryModel>, index: int) -> Option<EntryModel> {
    if 0 <= index < entries.len() {
        Some(entries[index])
    } else {
        None
    }
}

/// The state of one session: its file, its mode, the entries loaded from the
/// file and the entries observed so far.
#[derive(Debug)]
pub struct TestVecEnv {
    tv_file_path: String,
    file_format: TestVectorFileFormat,
    loaded_tv_data: TestVectorData,
    recorded_tv_data: TestVectorData,
    test_mode: TestMode,
}

impl View for TestVecEnv {
    type V = SessionModel;

    closed spec fn view(&self) -> SessionModel {
        SessionModel {
            path: self.tv_file_path@,
            format: self.file_format,
            mode: self.test_mode,
            loaded: self.loaded_tv_data@,
            recorded: self.recorded_tv_data@,
        }
    }
}

impl TestVecEnv {
    /// A session with nothing observed yet. `Init` starts from an empty
    /// recording whatever `loaded` holds.
    pub fn new(
        tv_file_path: &str,
        file_format: TestVectorFileFormat,
        test_mode: TestMode,
        loaded: TestVectorData,
    ) -> (r: TestVecEnv)
        ensures
            r@.path == tv_file_path@,
            r@.format == file_format,
            r@.mode == test_mode,
            r@.loaded == (if test_mode == TestMode::Init {
                Seq::<EntryModel>::empty()
            } else {
                loaded@
            }),
            r@.recorded == Seq::<EntryModel>::empty(),
    {
        let loaded_tv_data = match test_mode {
            TestMode::Init => TestVectorData::new(),
            TestMode::Check => loaded,
        };
        TestVecEnv {
            tv_file_path: tv_file_path.to_owned(),
            file_format,
            loaded_tv_data,
            recorded_tv_data: TestVectorData::new(),
            test_mode,
        }
    }

    pub fn tv_file_path(&self) -> (r: &String)
        ensures
            r@ == self@.path,
    {
        &self.tv_file_path
    }

    pub fn file_format(&self) -> (r: TestVectorFileFormat)
        ensures
            r == self@.format,
    {
        self.file_format
    }

    pub fn test_mode(&self) -> (r: TestMode)
        ensures
            r == self@.mode,
    {
        self.test_mode
    }

    pub fn loaded(&self) -> (r: &TestVectorData)
        ensures
            r@ == self@.loaded,
    {
        &self.loaded_tv_data
    }

    pub fn recorded(&self) -> (r: &TestVectorData)
        ensures
            r@ == self@.recorded,
    {
        &self.recorded_tv_data
    }

    /// Processes the next observed entry: appends it to the recording, then
    /// hands back the value of a constant, passes an output, or fails as
    /// [`step_outcome`] says for the entry's position.
    pub fn process_entry(&mut self, observed: TestVectorEntry) -> (r: Result<
        Option<JsonValue>,
        TvError,
    >)
        ensures
            final(self)@ == (SessionModel {
                recorded: old(self)@.recorded.push(observed@),
                ..old(self)@
            }),
            result_matches(
                r,
                step_outcome(
                    old(self)@.mode,
                    old(self)@.loaded,
                    old(self)@.recorded.len() as int,
                    observed@,
                ),
                entry_at(old(self)@.loaded, old(self)@.recorded.len() as int),
                observed@,
            ),
    {
        let entry_index = self.recorded_tv_data.entries.len();
        let ghost old_recorded = self.recorded_tv_data@;
        let ghost old_entries = self.recorded_tv_data.entries@;
        self.recorded_tv_data.entries.push(observed.duplicate());
        proof {
            assert(self.recorded_tv_data@ =~= old_recorded.push(observed@)) by {
                assert(self.recorded_tv_data.entries@ == old_entries.push(
                    self.recorded_tv_data.entries@.last(),
                ));
            }
        }
        match self.test_mode {
            TestMode::Init => match observed.entry_type {
                TestVectorEntryType::Const => Ok(Some(observed.value)),
                TestVectorEntryType::Output => Ok(None),
            },
            TestMode::Check => {
                if entry_index >= self.loaded_tv_data.entries.len() {
                    return Err(TvError::MissingEntry { observed });
                }
                let loaded_entry = &self.loaded_tv_data.entries[entry_index];
                assert(loaded_entry@ == self@.loaded[entry_index as int]);
                if !crate::entry::opt_string_eq(&loaded_entry.name, &observed.name) {
                    return Err(
                        TvError::Mismatch {
                            field: MismatchField::Name,
                            loaded: loaded_entry.duplicate(),
                            observed,
                        },
                    );
                }
                if loaded_entry.entry_type != observed.entry_type {
                    return Err(
                        TvError::Mismatch {
                            field: MismatchField::EntryType,
                            loaded: loaded_entry.duplicate(),
                            observed,
                        },
                    );
                }
                match loaded_entry.entry_type {
                    TestVectorEntryType::Output => {
                        if !loaded_entry.value.equals(&observed.value) {
                            Err(
                                TvError::Mismatch {
                                    field: MismatchField::Value,
                                    loaded: loaded_entry.duplicate(),
                                    observed,
                                },
                            )
                        } else {
                            Ok(None)
                        }
                    },
                    TestVectorEntryType::Const => Ok(Some(loaded_entry.value.duplicate())),
                }
            },
        }
    }
}

} // verus!
