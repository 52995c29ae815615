use vstd::prelude::*;

verus! {

/// Where a sandbox handle stands: it exists only once its box was created.
pub enum HandleState {
    Initialized { box_id: u64 },
    CleanedUp,
}

/// What happens to a handle.
pub enum HandleEvent {
    /// A run finished, whether it gave a result or an error.
    RunFinished { ok: bool },
    /// The handle's owner let it go.
    Dropped,
}

/// What the owner of a handle must do next.
pub enum HandleAction {
    Nothing,
    /// Tear the box down, in the background; a failure is only logged.
    Cleanup { box_id: u64 },
}

pub open spec fn handle_step_spec(s: HandleState, e: HandleEvent) -> (HandleState, HandleAction) {
    match (s, e) {
        (HandleState::Initialized { box_id }, HandleEvent::Dropped) => (
            HandleState::CleanedUp,
            HandleAction::Cleanup { box_id },
        ),
        (s, _) => (s, HandleAction::Nothing),
    }
}

/// The next state of a handle and the action it asks for.
pub fn handle_step(s: HandleState, e: HandleEvent) -> (r: (HandleState, HandleAction))
    ensures
        r == handle_step_spec(s, e),
{
    match (s, e) {
        (HandleState::Initialized { box_id }, HandleEvent::Dropped) => (
            HandleState::CleanedUp,
            HandleAction::Cleanup { box_id },
        ),
        (s, _) => (s, HandleAction::Nothing),
    }
}

/// The state after a sequence of events.
pub open spec fn state_after(s: HandleState, events: Seq<HandleEvent>) -> HandleState
    decreases events.len(),
{
    if events.len() == 0 {
        s
    } else {
        state_after(handle_step_spec(s, events[0]).0, events.drop_first())
    }
}

/// How many cleanups of box `b` a sequence of events asks for.
pub open spec fn cleanups_of(s: HandleState, events: Seq<HandleEvent>, b: u64) -> nat
    decreases events.len(),
{
    if events.len() == 0 {
        0
    } else {
        let (next, action) = handle_step_spec(s, events[0]);
        (if action == (HandleAction::Cleanup { box_id: b }) {
            1nat
        } else {
            0nat
        }) + cleanups_of(next, events.drop_first(), b)
    }
}

pub open spec fn is_drop(e: HandleEvent) -> bool {
    e is Dropped
}

/// Whatever runs came before, and whether they failed, a handle of box `b` that is
/// dropped asks for exactly one cleanup of `b`, and for none before it is dropped.
pub proof fn lemma_cleanup_exactly_once(b: u64, events: Seq<HandleEvent>)
    ensures
        cleanups_of(HandleState::Initialized { box_id: b }, events, b) == (if exists|i: int|
            0 <= i < events.len() && #[trigger] is_drop(events[i]) {
            1nat
        } else {
            0nat
        }),
    decreases events.len(),
{
    if events.len() > 0 {
        let rest = events.drop_first();
        if events[0] is Dropped {
            assert(is_drop(events[0]));
            lemma_cleaned_up_stays(rest, b);
        } else {
            lemma_cleanup_exactly_once(b, rest);
            if exists|i: int| 0 <= i < events.len() && #[trigger] is_drop(events[i]) {
                let i = choose|i: int| 0 <= i < events.len() && #[trigger] is_drop(events[i]);
                assert(rest[i - 1] == events[i]);
                assert(is_drop(rest[i - 1]));
            } else {
                assert forall|i: int| 0 <= i < rest.len() implies !#[trigger] is_drop(rest[i]) by {
                    assert(rest[i] == events[i + 1]);
                }
            }
        }
    }
}

/// A handle that was cleaned up asks for nothing more.
pub proof fn lemma_cleaned_up_stays(events: Seq<HandleEvent>, b: u64)
    ensures
        cleanups_of(HandleState::CleanedUp, events, b) == 0,
        state_after(HandleState::CleanedUp, events) == HandleState::CleanedUp,
    decreases events.len(),
{
    if events.len() > 0 {
        lemma_cleaned_up_stays(events.drop_first(), b);
    }
}

} // verus!
