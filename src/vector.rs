//! The interface that code under test uses: value descriptors, a pluggable
//! serializer/deserializer, and an active and a no-op implementation.

use vstd::prelude::*;

use crate::config::TestMode;
use crate::entry::{opt_string_copy, opt_view, EntryModel, TestVectorEntryType};
use crate::error::TvError;
use crate::json::{JsonData, JsonValue};
use crate::registry::{process_next_entry, SessionRegistry};
use crate::session::{step_outcome, SessionModel, StepOutcome};

verus! {

/// Pluggable serializer/deserializer for a type used in test vectors,
/// implemented by the users of the library for their own types.
pub trait TestVectorMomento<O> {
    /// Serializes `original_value` into structured data.
    fn serialize(&self, original_value: &O) -> Result<JsonValue, String>;

    /// Deserializes structured data that was stored in a test vector.
    fn deserialize(&self, value: &JsonValue) -> Result<O, String>;
}

/// Describes one observed value: its name, description, where it was
/// declared, how it is serialized, and whether it is stored out of line.
pub struct TestValue<M> {
    pub name: Option<String>,
    pub description: Option<String>,
    pub test_value_field_code_location: String,
    pub momento: M,
    pub compress: bool,
    pub offload: bool,
}

impl<M> TestValue<M> {
    pub fn new(
        name: Option<String>,
        description: Option<String>,
        code_location: String,
        momento: M,
        compress: bool,
        offload: bool,
    ) -> (r: TestValue<M>)
        ensures
            r.name == name,
            r.description == description,
            r.test_value_field_code_location == code_location,
            r.momento == momento,
            r.compress == compress,
            r.offload == offload,
    {
        TestValue {
            name,
            description,
            test_value_field_code_location: code_location,
            momento,
            compress,
            offload,
        }
    }
}

/// The model of the entry that observing a value of `field` records.
pub open spec fn field_entry<M>(
    field: TestValue<M>,
    entry_type: TestVectorEntryType,
    value: JsonData,
    code_location: Option<String>,
) -> EntryModel {
    EntryModel {
        entry_type,
        description: opt_view(field.description),
        name: opt_view(field.name),
        value,
        code_location: opt_view(code_location),
        test_vec_set_code_location: Some(field.test_value_field_code_location@),
        offload: field.offload,
    }
}

/// What observing a value of `field` of kind `entry_type` does to the registry
/// `before`, `after`: either it fails without effect, as `unchanged_err` says
/// (no session is active, or the value cannot be serialized); or a session is
/// active and the entry holding the serialized value `v` is recorded, the
/// result failing (`r_is_err`) exactly when [`step_outcome`] fails, except
/// that when the step hands back a value for a constant, `replayed` says what
/// holds of the result.
pub open spec fn observed_through<M>(
    before: Option<SessionModel>,
    after: Option<SessionModel>,
    field: TestValue<M>,
    entry_type: TestVectorEntryType,
    code_location: Option<String>,
    unchanged_err: bool,
    r_is_err: bool,
    replayed: spec_fn(TestMode) -> bool,
) -> bool {
    ||| unchanged_err && after == before
    ||| exists|v: JsonData|
        {
            &&& before matches Some(s)
            &&& {
                let o = #[trigger] field_entry(field, entry_type, v, code_location);
                let outcome = step_outcome(s.mode, s.loaded, s.recorded.len() as int, o);
                &&& after == Some(SessionModel { recorded: s.recorded.push(o), ..s })
                &&& outcome.is_error() ==> r_is_err
                &&& outcome is Replay ==> replayed(s.mode)
                &&& outcome is Pass ==> !r_is_err
            }
        }
}

/// What exposing a constant of `field` does: see [`observed_through`]. When
/// the recorded or just-serialized value is handed back, the result is the
/// deserializer's, or `SerializationRoundTrip` in `Init` mode and
/// `Deserialization` in `Check` mode when it fails.
pub open spec fn exposed<O, M>(
    before: Option<SessionModel>,
    after: Option<SessionModel>,
    field: TestValue<M>,
    code_location: Option<String>,
    r: Result<O, TvError>,
) -> bool {
    observed_through(
        before,
        after,
        field,
        TestVectorEntryType::Const,
        code_location,
        (r matches Err(TvError::Serialization { .. })) || (before is None && (r matches Err(
            TvError::NotInitialized,
        ))),
        r is Err,
        |mode: TestMode|
            r is Ok || (mode == TestMode::Init && (r matches Err(
                TvError::SerializationRoundTrip { .. },
            ))) || (mode == TestMode::Check && (r matches Err(TvError::Deserialization { .. }))),
    )
}

/// What checking an output of `field` does: see [`observed_through`]; the
/// check passes exactly when the step does.
pub open spec fn checked<M>(
    before: Option<SessionModel>,
    after: Option<SessionModel>,
    field: TestValue<M>,
    code_location: Option<String>,
    r: Result<(), TvError>,
) -> bool {
    observed_through(
        before,
        after,
        field,
        TestVectorEntryType::Output,
        code_location,
        (r matches Err(TvError::Serialization { .. })) || (before is None && (r matches Err(
            TvError::NotInitialized,
        ))),
        r is Err,
        |mode: TestMode| false,
    )
}

/// A set of value descriptors that code under test builds for itself.
pub trait TestVectorSet: Sized {
    fn start<TV: TestVector>() -> Self;
}

/// Builds the value descriptors of a set, for the implementation `TV`.
pub fn initialize_values<TV: TestVector, T: TestVectorSet>() -> T {
    T::start::<TV>()
}

/// How code under test exposes constants and checks outputs; the active
/// implementation goes through the session, the no-op one does nothing.
pub trait TestVector: Sized {
    /// Whether values go through the session.
    spec fn enabled() -> bool;

    fn is_test_vector_enabled() -> (r: bool)
        ensures
            r == Self::enabled(),
    ;

    /// Exposes a constant: hands back the value to use in its place, which is
    /// the recorded one when replaying.
    fn expose_value<O, M: TestVectorMomento<O>>(
        registry: &mut SessionRegistry,
        field: &TestValue<M>,
        observed_value: O,
        code_location: Option<String>,
    ) -> (r: Result<O, TvError>)
        ensures
            Self::enabled() ==> exposed(old(registry)@, final(registry)@, *field, code_location, r),
            !Self::enabled() ==> r == Ok::<O, TvError>(observed_value) && final(registry)@ == old(
                registry,
            )@,
    ;

    /// Exposes a constant in place.
    fn expose_mut_value<O, M: TestVectorMomento<O>>(
        registry: &mut SessionRegistry,
        field: &TestValue<M>,
        observed_mut_value: &mut O,
        code_location: Option<String>,
    ) -> (r: Result<(), TvError>)
        ensures
            Self::enabled() ==> exists|e: Result<O, TvError>|
                exposed(old(registry)@, final(registry)@, *field, code_location, e) && match e {
                    Ok(v) => r is Ok && *final(observed_mut_value) == v,
                    Err(_) => r is Err && *final(observed_mut_value) == *old(observed_mut_value),
                },
            !Self::enabled() ==> r is Ok && *final(observed_mut_value) == *old(observed_mut_value)
                && final(registry)@ == old(registry)@,
    ;

    /// Checks an output against the recording.
    fn check_value<O, M: TestVectorMomento<O>>(
        registry: &mut SessionRegistry,
        field: &TestValue<M>,
        observed_value: &O,
        code_location: Option<String>,
    ) -> (r: Result<(), TvError>)
        ensures
            Self::enabled() ==> checked(old(registry)@, final(registry)@, *field, code_location, r),
            !Self::enabled() ==> r is Ok && final(registry)@ == old(registry)@,
    ;
}

/// Exposes a constant through the active session, as [`exposed`] says.
fn expose_through_session<O, M: TestVectorMomento<O>>(
    registry: &mut SessionRegistry,
    field: &TestValue<M>,
    observed_value: &O,
    code_location: Option<String>,
) -> (r: Result<O, TvError>)
    ensures
        exposed(old(registry)@, final(registry)@, *field, code_location, r),
{
    let value = match field.momento.serialize(observed_value) {
        Ok(v) => v,
        Err(message) => {
            return Err(TvError::Serialization { message });
        },
    };
    let ghost v = value@;
    let ghost before = registry@;
    let mode = registry.active_mode();
    let replay = process_next_entry(
        registry,
        TestVectorEntryType::Const,
        opt_string_copy(&field.description),
        opt_string_copy(&field.name),
        value,
        code_location,
        Some(field.test_value_field_code_location.clone()),
        field.offload,
    );
    let r = match replay {
        Ok(Some(x)) => match field.momento.deserialize(&x) {
            Ok(o) => Ok(o),
            Err(message) => match mode {
                Some(TestMode::Init) => Err(TvError::SerializationRoundTrip { message }),
                _ => Err(TvError::Deserialization { message }),
            },
        },
        Ok(None) => {
            // A constant never passes without a value: the step either hands
            // one back or fails.
            proof {
                assert(false);
            }
            Err(TvError::NotInitialized)
        },
        Err(e) => Err(e),
    };
    proof {
        if before is Some {
            let _ = field_entry(*field, TestVectorEntryType::Const, v, code_location);
        }
    }
    r
}

/// Values go through the active session.
#[derive(Clone, Debug)]
pub struct TestVectorActive;

/// Values pass through untouched, as in production.
#[derive(Clone, Debug)]
pub struct TestVectorNOP;

impl TestVector for TestVectorActive {
    open spec fn enabled() -> bool {
        true
    }

    fn is_test_vector_enabled() -> (r: bool) {
        true
    }

    fn expose_value<O, M: TestVectorMomento<O>>(
        registry: &mut SessionRegistry,
        field: &TestValue<M>,
        observed_value: O,
        code_location: Option<String>,
    ) -> (r: Result<O, TvError>) {
        expose_through_session(registry, field, &observed_value, code_location)
    }

    fn expose_mut_value<O, M: TestVectorMomento<O>>(
        registry: &mut SessionRegistry,
        field: &TestValue<M>,
        observed_mut_value: &mut O,
        code_location: Option<String>,
    ) -> (r: Result<(), TvError>) {
        let e = expose_through_session(registry, field, observed_mut_value, code_location);
        let ghost exposure = e;
        let r = match e {
            Ok(v) => {
                *observed_mut_value = v;
                Ok(())
            },
            Err(err) => Err(err),
        };
        assert(match exposure {
            Ok(v) => r is Ok && *observed_mut_value == v,
            Err(_) => r is Err && *observed_mut_value == *old(observed_mut_value),
        });
        r
    }

    fn check_value<O, M: TestVectorMomento<O>>(
        registry: &mut SessionRegistry,
        field: &TestValue<M>,
        observed_value: &O,
        code_location: Option<String>,
    ) -> (r: Result<(), TvError>) {
        let value = match field.momento.serialize(observed_value) {
            Ok(v) => v,
            Err(message) => {
                return Err(TvError::Serialization { message });
            },
        };
        let ghost v = value@;
        let ghost before = registry@;
        let r = match process_next_entry(
            registry,
            TestVectorEntryType::Output,
            opt_string_copy(&field.description),
            opt_string_copy(&field.name),
            value,
            code_location,
            Some(field.test_value_field_code_location.clone()),
            field.offload,
        ) {
            Ok(_) => Ok(()),
            Err(e) => Err(e),
        };
        proof {
            if before is Some {
                let _ = field_entry(*field, TestVectorEntryType::Output, v, code_location);
            }
        }
        r
    }
}

impl TestVector for TestVectorNOP {
    open spec fn enabled() -> bool {
        false
    }

    fn is_test_vector_enabled() -> (r: bool) {
        false
    }

    fn expose_value<O, M: TestVectorMomento<O>>(
        registry: &mut SessionRegistry,
        field: &TestValue<M>,
        observed_value: O,
        code_location: Option<String>,
    ) -> (r: Result<O, TvError>) {
        Ok(observed_value)
    }

    fn expose_mut_value<O, M: TestVectorMomento<O>>(
        registry: &mut SessionRegistry,
        field: &TestValue<M>,
        observed_mut_value: &mut O,
        code_location: Option<String>,
    ) -> (r: Result<(), TvError>) {
        Ok(())
    }

    fn check_value<O, M: TestVectorMomento<O>>(
        registry: &mut SessionRegistry,
        field: &TestValue<M>,
        observed_value: &O,
        code_location: Option<String>,
    ) -> (r: Result<(), TvError>) {
        Ok(())
    }
}

} // verus!
