//! The slot that holds the one active session, the handle that scopes it, and
//! the operations that reach the session through it.

use vstd::prelude::*;

use crate::config::{TestMode, TestVectorFileFormat};
use crate::entry::{opt_view, EntryModel, TestVectorData, TestVectorEntry, TestVectorEntryType};
use crate::error::TvError;
use crate::json::JsonValue;
use crate::offload::{offload_positions, sidecar_path, stripped, OffloadedValue};
use crate::session::{entry_at, result_matches, step_outcome, SessionModel, TestVecEnv};

verus! {

/// Holds at most one active session.
#[derive(Debug)]
pub struct SessionRegistry {
    active: Option<TestVecEnv>,
}

/// The handle of an active session. Handing it back to the registry with
/// [`TlsEnvGuard::release`] ends the session.
#[derive(Debug)]
pub struct TlsEnvGuard {
    tv_file_path: String,
}

impl View for TlsEnvGuard {
    type V = Seq<char>;

    /// The file of the session that the handle scopes.
    closed spec fn view(&self) -> Seq<char> {
        self.tv_file_path@
    }
}

impl View for SessionRegistry {
    type V = Option<SessionModel>;

    closed spec fn view(&self) -> Option<SessionModel> {
        match self.active {
            Some(env) => Some(env@),
            None => None,
        }
    }
}

/// Whether closing the session writes its file: only in `Init`, and only when
/// the recording differs from what was loaded or the file does not exist.
pub open spec fn needs_write(s: SessionModel, file_exists: bool) -> bool {
    s.mode == TestMode::Init && (s.loaded != s.recorded || !file_exists)
}

/// The model of an entry built from its parts.
pub open spec fn entry_model(
    entry_type: TestVectorEntryType,
    description: Option<String>,
    name: Option<String>,
    value: JsonValue,
    code_location: Option<String>,
    test_vec_set_code_location: Option<String>,
    offload: bool,
) -> EntryModel {
    EntryModel {
        entry_type,
        description: opt_view(description),
        name: opt_view(name),
        value: value@,
        code_location: opt_view(code_location),
        test_vec_set_code_location: opt_view(test_vec_set_code_location),
        offload,
    }
}

/// What persisting a session writes: the main document, with offloaded values
/// nulled, and one sidecar per offloaded value.
#[derive(Debug)]
pub struct PersistPlan {
    pub tv_file_path: String,
    pub file_format: TestVectorFileFormat,
    pub document: TestVectorData,
    pub offloaded: Vec<OffloadedValue>,
}

impl SessionRegistry {
    /// A registry with no active session.
    pub fn new() -> (r: SessionRegistry)
        ensures
            r@ is None,
    {
        SessionRegistry { active: None }
    }

    /// Whether a session is active.
    pub fn is_active(&self) -> (r: bool)
        ensures
            r == self@ is Some,
    {
        self.active.is_some()
    }

    /// Makes `env` the active session; fails while another one is active.
    pub fn initialize_with(&mut self, env: TestVecEnv) -> (r: Result<TlsEnvGuard, TvError>)
        ensures
            old(self)@ is Some ==> (r matches Err(TvError::AlreadyActive { active_path })
                && active_path@ == old(self)@->Some_0.path) && final(self)@ == old(self)@,
            old(self)@ is None ==> r is Ok && r->Ok_0@ == env@.path && final(self)@ == Some(env@),
    {
        match &self.active {
            Some(previous) => {
                return Err(TvError::AlreadyActive { active_path: previous.tv_file_path().clone() });
            },
            None => {},
        }
        let tv_file_path = env.tv_file_path().clone();
        self.active = Some(env);
        Ok(TlsEnvGuard { tv_file_path })
    }

    /// The mode of the active session, if any.
    pub fn active_mode(&self) -> (r: Option<TestMode>)
        ensures
            r == (match self@ {
                Some(s) => Some(s.mode),
                None => None::<TestMode>,
            }),
    {
        match &self.active {
            Some(env) => Some(env.test_mode()),
            None => None,
        }
    }

    /// The file of the active session, if any.
    pub fn active_path(&self) -> (r: Option<String>)
        ensures
            match self@ {
                Some(s) => r is Some && r->Some_0@ == s.path,
                None => r is None,
            },
    {
        match &self.active {
            Some(env) => Some(env.tv_file_path().clone()),
            None => None,
        }
    }

    /// Ends the active session, if any.
    pub fn clear(&mut self)
        ensures
            final(self)@ is None,
    {
        self.active = None;
    }
}

impl TlsEnvGuard {
    /// The file of the session this handle scopes.
    pub fn tv_file_path(&self) -> (r: &String)
        ensures
            r@ == self@,
    {
        &self.tv_file_path
    }

    /// Ends the session: the registry holds no active session afterwards.
    pub fn release(self, registry: &mut SessionRegistry)
        ensures
            final(registry)@ is None,
    {
        registry.clear();
    }
}

/// Opens a session on the file at `tv_file_path`. `stored` is what loading the
/// file gave, offloaded values resolved. In `Check` mode a failed load fails
/// with `Load`; in `Init` mode the recording starts empty whatever `stored`
/// holds. Fails with `AlreadyActive` while another session is active.
pub fn initialize_tv_case_from_file(
    registry: &mut SessionRegistry,
    tv_file_path: &str,
    file_format: TestVectorFileFormat,
    test_mode: TestMode,
    stored: Result<TestVectorData, String>,
) -> (r: Result<TlsEnvGuard, TvError>)
    ensures
        test_mode == TestMode::Check && stored is Err ==> (r matches Err(TvError::Load { message })
            && message@ == stored->Err_0@) && final(registry)@ == old(registry)@,
        !(test_mode == TestMode::Check && stored is Err) && old(registry)@ is Some ==> (r matches Err(
            TvError::AlreadyActive { .. },
        )) && final(registry)@ == old(registry)@,
        !(test_mode == TestMode::Check && stored is Err) && old(registry)@ is None ==> r is Ok
            && r->Ok_0@ == tv_file_path@ && final(registry)@ == Some(
            SessionModel {
                path: tv_file_path@,
                format: file_format,
                mode: test_mode,
                loaded: if test_mode == TestMode::Init {
                    Seq::<EntryModel>::empty()
                } else {
                    stored->Ok_0@
                },
                recorded: Seq::<EntryModel>::empty(),
            },
        ),
{
    let loaded = match test_mode {
        TestMode::Init => TestVectorData::new(),
        TestMode::Check => match stored {
            Ok(data) => data,
            Err(message) => {
                return Err(TvError::Load { message });
            },
        },
    };
    let env = TestVecEnv::new(tv_file_path, file_format, test_mode, loaded);
    registry.initialize_with(env)
}

/// Processes the next observed value of the active session, at the position
/// that the number of entries observed so far gives: the entry is always
/// recorded, and the result is what [`step_outcome`] says. Fails with
/// `NotInitialized`, recording nothing, when no session is active.
pub fn process_next_entry(
    registry: &mut SessionRegistry,
    entry_type: TestVectorEntryType,
    description: Option<String>,
    name: Option<String>,
    observed_value: JsonValue,
    code_location: Option<String>,
    test_vec_set_code_location: Option<String>,
    offload: bool,
) -> (r: Result<Option<JsonValue>, TvError>)
    ensures
        old(registry)@ is None ==> (r matches Err(TvError::NotInitialized)) && final(registry)@
            == old(registry)@,
        old(registry)@ is Some ==> {
            let s = old(registry)@->Some_0;
            let o = entry_model(
                entry_type,
                description,
                name,
                observed_value,
                code_location,
                test_vec_set_code_location,
                offload,
            );
            &&& final(registry)@ == Some(SessionModel { recorded: s.recorded.push(o), ..s })
            &&& result_matches(
                r,
                step_outcome(s.mode, s.loaded, s.recorded.len() as int, o),
                entry_at(s.loaded, s.recorded.len() as int),
                o,
            )
        },
{
    let observed = TestVectorEntry {
        entry_type,
        description,
        name,
        value: observed_value,
        code_location,
        test_vec_set_code_location,
        offload,
    };
    match &mut registry.active {
        Some(env) => env.process_entry(observed),
        None => Err(TvError::NotInitialized),
    }
}

/// Closes the active session. In `Check` mode nothing is written. In `Init`
/// mode the recording is to be written when it differs from what was loaded
/// or the file does not exist: the plan holds the document with offloaded
/// values nulled and the sidecars that hold them. Fails with `NotInitialized`
/// when no session is active.
pub fn finalize_tv_case(registry: &SessionRegistry, file_exists: bool) -> (r: Result<
    Option<PersistPlan>,
    TvError,
>)
    ensures
        registry@ is None ==> r matches Err(TvError::NotInitialized),
        registry@ is Some ==> {
            let s = registry@->Some_0;
            &&& r is Ok
            &&& (r->Ok_0 is Some <==> needs_write(s, file_exists))
            &&& r matches Ok(Some(plan)) ==> {
                &&& plan.tv_file_path@ == s.path
                &&& plan.file_format == s.format
                &&& plan.document@ == stripped(s.recorded)
                &&& plan.offloaded.len() == offload_positions(s.recorded).len()
                &&& forall|k: int|
                    #![trigger plan.offloaded[k]]
                    0 <= k < plan.offloaded.len() ==> {
                        let i = plan.offloaded[k].index as int;
                        &&& i == offload_positions(s.recorded)[k]
                        &&& plan.offloaded[k].value@ == s.recorded[i].value
                        &&& plan.offloaded[k].path@ == sidecar_path(s.path, i as nat)
                    }
            }
        },
{
    match &registry.active {
        None => Err(TvError::NotInitialized),
        Some(env) => match env.test_mode() {
            TestMode::Check => Ok(None),
            TestMode::Init => {
                let update_required = !env.loaded().equals(env.recorded()) || !file_exists;
                if update_required {
                    let mut document = env.recorded().duplicate();
                    let offloaded = document.save_offloaded_values(env.tv_file_path().as_str());
                    Ok(
                        Some(
                            PersistPlan {
                                tv_file_path: env.tv_file_path().clone(),
                                file_format: env.file_format(),
                                document,
                                offloaded,
                            },
                        ),
                    )
                } else {
                    Ok(None)
                }
            },
        },
    }
}

} // verus!
