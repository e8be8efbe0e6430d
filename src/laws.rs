//! Properties that hold of every session, stated over the models.

use vstd::prelude::*;

use crate::config::TestMode;
use crate::entry::{EntryModel, TestVectorEntryType};
use crate::json::JsonData;
use crate::offload::{all_resolved, offload_positions, restored, sidecar_values, stripped};
use crate::registry::needs_write;
use crate::session::{step_outcome, SessionModel, StepOutcome};

verus! {

/// In `Init` mode a constant hands back exactly the value it was just
/// serialized to, at every position and whatever was loaded, so the caller's
/// deserializer reads back what its serializer wrote; an output hands back
/// nothing and never fails.
pub proof fn lemma_init_constant_round_trip(
    loaded: Seq<EntryModel>,
    index: int,
    observed: EntryModel,
)
    ensures
        observed.entry_type == TestVectorEntryType::Const ==> step_outcome(
            TestMode::Init,
            loaded,
            index,
            observed,
        ) == StepOutcome::Replay(observed.value),
        observed.entry_type == TestVectorEntryType::Output ==> step_outcome(
            TestMode::Init,
            loaded,
            index,
            observed,
        ) == StepOutcome::Pass,
{
}

/// Whether `observed` follows the same code path as the recording `loaded`:
/// as many entries, with the same names and kinds, and outputs with the same
/// values. Constants may hold anything.
pub open spec fn same_code_path(loaded: Seq<EntryModel>, observed: Seq<EntryModel>) -> bool {
    &&& observed.len() == loaded.len()
    &&& forall|i: int|
        #![trigger observed[i]]
        0 <= i < observed.len() ==> {
            &&& observed[i].name == loaded[i].name
            &&& observed[i].entry_type == loaded[i].entry_type
            &&& observed[i].entry_type == TestVectorEntryType::Output ==> observed[i].value
                == loaded[i].value
        }
}

/// Replaying a recording in `Check` mode along the same code path fails at
/// no position, hands every constant its recorded value, and writes nothing.
pub proof fn lemma_check_replay_is_idempotent(
    s: SessionModel,
    observed: Seq<EntryModel>,
    file_exists: bool,
)
    requires
        s.mode == TestMode::Check,
        same_code_path(s.loaded, observed),
    ensures
        !needs_write(s, file_exists),
        forall|i: int|
            0 <= i < observed.len() ==> !(#[trigger] step_outcome(
                TestMode::Check,
                s.loaded,
                i,
                observed[i],
            )).is_error(),
        forall|i: int|
            0 <= i < observed.len() && observed[i].entry_type == TestVectorEntryType::Const
                ==> #[trigger] step_outcome(TestMode::Check, s.loaded, i, observed[i])
                == StepOutcome::Replay(s.loaded[i].value),
{
}

/// Replaying a sequence of observations in `Check` mode against a recording
/// of that same sequence follows the same code path, and no step fails.
pub proof fn lemma_recording_replays_itself(observed: Seq<EntryModel>)
    ensures
        same_code_path(observed, observed),
        forall|i: int|
            0 <= i < observed.len() ==> !(#[trigger] step_outcome(
                TestMode::Check,
                observed,
                i,
                observed[i],
            )).is_error(),
{
}

/// In `Init` mode the file is rewritten whenever the recording differs from
/// what was loaded, and left alone when they are equal and the file exists.
pub proof fn lemma_change_detection(s: SessionModel, file_exists: bool)
    requires
        s.mode == TestMode::Init,
    ensures
        s.recorded != s.loaded ==> needs_write(s, file_exists),
        s.recorded == s.loaded && file_exists ==> !needs_write(s, file_exists),
        !file_exists ==> needs_write(s, file_exists),
{
}

/// In `Check` mode, at a position whose recorded entry has the observed name
/// and kind, a constant is handed its recorded value whatever was observed,
/// while an output with another value is a mismatch.
pub proof fn lemma_constant_tolerance_output_strictness(
    loaded: Seq<EntryModel>,
    index: int,
    observed: EntryModel,
)
    requires
        0 <= index < loaded.len(),
        loaded[index].name == observed.name,
        loaded[index].entry_type == observed.entry_type,
    ensures
        observed.entry_type == TestVectorEntryType::Const ==> step_outcome(
            TestMode::Check,
            loaded,
            index,
            observed,
        ) == StepOutcome::Replay(loaded[index].value),
        observed.entry_type == TestVectorEntryType::Output && observed.value != loaded[index].value
            ==> step_outcome(TestMode::Check, loaded, index, observed) == StepOutcome::ValueMismatch,
{
}

/// Inserting an entry into a recorded sequence never replays silently in
/// `Check` mode: some position fails, and the inserted entry itself fails
/// when its name or kind differs from the one it displaced.
pub proof fn lemma_positional_drift(loaded: Seq<EntryModel>, at: int, inserted: EntryModel)
    requires
        0 <= at <= loaded.len(),
    ensures
        exists|i: int|
            0 <= i < loaded.insert(at, inserted).len() && (#[trigger] step_outcome(
                TestMode::Check,
                loaded,
                i,
                loaded.insert(at, inserted)[i],
            )).is_error(),
        at < loaded.len() && inserted.name != loaded[at].name ==> step_outcome(
            TestMode::Check,
            loaded,
            at,
            inserted,
        ) == StepOutcome::NameMismatch,
        at < loaded.len() && inserted.name == loaded[at].name && inserted.entry_type
            != loaded[at].entry_type ==> step_outcome(TestMode::Check, loaded, at, inserted)
            == StepOutcome::KindMismatch,
{
    let observed = loaded.insert(at, inserted);
    let last = loaded.len() as int;
    assert(step_outcome(TestMode::Check, loaded, last, observed[last]) == StepOutcome::MissingEntry);
}

/// Every position that [`offload_positions`] lists is in range and offloaded,
/// and the positions increase.
pub proof fn lemma_offload_positions(entries: Seq<EntryModel>)
    ensures
        forall|k: int|
            #![trigger offload_positions(entries)[k]]
            0 <= k < offload_positions(entries).len() ==> {
                let p = offload_positions(entries)[k];
                0 <= p < entries.len() && entries[p].offload
            },
        forall|k1: int, k2: int|
            0 <= k1 < k2 < offload_positions(entries).len() ==> #[trigger] offload_positions(
                entries,
            )[k1] < #[trigger] offload_positions(entries)[k2],
        forall|i: int|
            0 <= i < entries.len() && (#[trigger] entries[i]).offload ==> offload_positions(
                entries,
            ).contains(i),
    decreases entries.len(),
{
    if entries.len() > 0 {
        let init = entries.drop_last();
        lemma_offload_positions(init);
        assert forall|i: int| 0 <= i < entries.len() && (#[trigger] entries[i]).offload implies offload_positions(
            entries,
        ).contains(i) by {
            if i < entries.len() - 1 {
                assert(init[i] == entries[i]);
                let k = choose|k: int| 0 <= k < offload_positions(init).len() && offload_positions(init)[k] == i;
                assert(offload_positions(entries)[k] == i);
            } else {
                assert(offload_positions(entries).last() == i);
            }
        }
    }
}

/// Offloading keeps nothing of an offloaded value in the main document, and
/// putting back what the sidecars hold gives the entries that were offloaded.
pub proof fn lemma_offload_round_trip(entries: Seq<EntryModel>)
    ensures
        stripped(entries).len() == entries.len(),
        forall|i: int|
            0 <= i < entries.len() && (#[trigger] entries[i]).offload ==> stripped(entries)[i].value
                == JsonData::Null,
        all_resolved(stripped(entries), sidecar_values(entries)),
        restored(stripped(entries), sidecar_values(entries)) == entries,
{
    assert(restored(stripped(entries), sidecar_values(entries)) =~= entries);
}

} // verus!
