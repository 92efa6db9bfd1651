use vstd::prelude::*;

use crate::supervisor::{
    kill_reply, slot_after_start, start_reply, start_spawns, StartOutcome, StopOutcome,
    SupervisorError,
};

verus! {

/// The replies to a series of `start` calls made one after another from `slot`,
/// where `spawns[i]` is what the i-th call's spawn would come back with.
pub open spec fn series_replies<H>(slot: Option<H>, spawns: Seq<Result<H, String>>) -> Seq<
    Result<StartOutcome, SupervisorError>,
>
    decreases spawns.len(),
{
    if spawns.len() == 0 {
        Seq::empty()
    } else {
        seq![start_reply(slot, spawns[0])] + series_replies(
            slot_after_start(slot, spawns[0]),
            spawns.drop_first(),
        )
    }
}

/// The slot after a series of `start` calls made one after another from `slot`.
pub open spec fn series_final_slot<H>(slot: Option<H>, spawns: Seq<Result<H, String>>) -> Option<H>
    decreases spawns.len(),
{
    if spawns.len() == 0 {
        slot
    } else {
        series_final_slot(slot_after_start(slot, spawns[0]), spawns.drop_first())
    }
}

/// How many spawn attempts a series of `start` calls made one after another from `slot` makes.
pub open spec fn series_spawn_count<H>(slot: Option<H>, spawns: Seq<Result<H, String>>) -> nat
    decreases spawns.len(),
{
    if spawns.len() == 0 {
        0
    } else {
        (if start_spawns(slot) {
            1nat
        } else {
            0nat
        }) + series_spawn_count(slot_after_start(slot, spawns[0]), spawns.drop_first())
    }
}

/// Once a handle is held, any number of further `start` calls spawn nothing,
/// keep the handle, and all report "already running".
pub proof fn lemma_occupied_series<H>(h: H, spawns: Seq<Result<H, String>>)
    ensures
        series_spawn_count(Some(h), spawns) == 0,
        series_final_slot(Some(h), spawns) == Some(h),
        series_replies(Some(h), spawns).len() == spawns.len(),
        forall|i: int|
            0 <= i < spawns.len() ==> #[trigger] series_replies(Some(h), spawns)[i] == Ok::<
                StartOutcome,
                SupervisorError,
            >(StartOutcome::AlreadyRunning),
    decreases spawns.len(),
{
    if spawns.len() > 0 {
        lemma_occupied_series(h, spawns.drop_first());
        let rest = series_replies(Some(h), spawns.drop_first());
        assert forall|i: int| 0 <= i < spawns.len() implies #[trigger] series_replies(
            Some(h),
            spawns,
        )[i] == Ok::<StartOutcome, SupervisorError>(StartOutcome::AlreadyRunning) by {
            if i > 0 {
                assert(series_replies(Some(h), spawns)[i] == rest[i - 1]);
            }
        }
    }
}

/// Two `start` calls in a row on an empty supervisor, the first spawning `h`:
/// exactly one spawn attempt, the first reports "started", the second "already
/// running", and the handle `h` stays stored whatever the second spawn would give.
pub proof fn lemma_start_is_idempotent<H>(h: H, second: Result<H, String>)
    ensures
        start_spawns(None::<H>),
        start_reply(None::<H>, Ok(h)) == Ok::<StartOutcome, SupervisorError>(StartOutcome::Started),
        slot_after_start(None::<H>, Ok(h)) == Some(h),
        !start_spawns(Some(h)),
        start_reply(Some(h), second) == Ok::<StartOutcome, SupervisorError>(
            StartOutcome::AlreadyRunning,
        ),
        slot_after_start(Some(h), second) == Some(h),
{
}

/// Any number `n >= 1` of `start` calls against an empty supervisor, taken one at a
/// time as its exclusive access orders them, where the first spawn attempt succeeds:
/// exactly one spawn attempt is made, exactly the first caller sees "started", and
/// the other `n - 1` see "already running", and the handle that first spawn gave is
/// the one stored at the end.
pub proof fn lemma_serialized_starts_spawn_once<H>(spawns: Seq<Result<H, String>>)
    requires
        spawns.len() >= 1,
        spawns[0] is Ok,
    ensures
        series_spawn_count(None::<H>, spawns) == 1,
        series_final_slot(None::<H>, spawns) == Some(spawns[0]->Ok_0),
        series_replies(None::<H>, spawns).len() == spawns.len(),
        series_replies(None::<H>, spawns)[0] == Ok::<StartOutcome, SupervisorError>(
            StartOutcome::Started,
        ),
        forall|i: int|
            1 <= i < spawns.len() ==> #[trigger] series_replies(None::<H>, spawns)[i] == Ok::<
                StartOutcome,
                SupervisorError,
            >(StartOutcome::AlreadyRunning),
{
    let h = spawns[0]->Ok_0;
    lemma_occupied_series(h, spawns.drop_first());
    let rest = series_replies(Some(h), spawns.drop_first());
    assert forall|i: int| 1 <= i < spawns.len() implies #[trigger] series_replies(
        None::<H>,
        spawns,
    )[i] == Ok::<StartOutcome, SupervisorError>(StartOutcome::AlreadyRunning) by {
        assert(series_replies(None::<H>, spawns)[i] == rest[i - 1]);
    }
}

/// A failed spawn leaves the slot empty, so the next `start` attempts a fresh spawn.
pub proof fn lemma_failed_spawn_keeps_slot_empty<H>(cause: String)
    ensures
        start_reply(None::<H>, Err(cause)) == Err::<StartOutcome, SupervisorError>(
            SupervisorError::SpawnFailure(cause),
        ),
        slot_after_start(None::<H>, Err(cause)) is None,
        start_spawns(slot_after_start(None::<H>, Err(cause))),
{
}

/// A `stop` whose termination request fails still reports the failure, and the slot
/// it leaves (empty, as `stop` ensures of every call) makes the next `start` attempt a
/// fresh spawn: whatever that spawn comes back with, it is never "already running".
pub proof fn lemma_failed_stop_keeps_slot_empty<H>(cause: String)
    ensures
        kill_reply(Err(cause)) == Err::<StopOutcome, SupervisorError>(
            SupervisorError::TerminationFailure(cause),
        ),
        start_spawns(None::<H>),
        forall|spawned: Result<H, String>|
            #[trigger] start_reply(None::<H>, spawned) != Ok::<StartOutcome, SupervisorError>(
                StartOutcome::AlreadyRunning,
            ),
{
}

} // verus!
