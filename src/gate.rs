use vstd::prelude::*;

verus! {

/// Number of sandbox slots that the isolation primitive offers; identifiers are `0..MAX_BOX_ID`.
pub const MAX_BOX_ID: u64 = 900;

/// The identifier handed out when the shared counter reads `counter`.
pub open spec fn box_id_of(counter: nat) -> nat {
    (counter % 0x1_0000_0000_0000_0000) % (MAX_BOX_ID as nat)
}

/// Hands out sandbox identifiers cyclically from a counter that wraps on overflow.
///
/// Identifiers are reused: a freshly handed out slot may still hold a previous user's
/// directory, so its working directory must be reset before use.
pub struct BoxIdAllocator {
    pub counter: u64,
}

impl BoxIdAllocator {
    pub fn new() -> (r: BoxIdAllocator)
        ensures
            r.counter == 0,
    {
        BoxIdAllocator { counter: 0 }
    }

    /// The current counter modulo `MAX_BOX_ID`; the counter moves on by one, wrapping.
    pub fn next_box_id(&mut self) -> (r: u64)
        ensures
            r == old(self).counter % MAX_BOX_ID,
            r < MAX_BOX_ID,
            final(self).counter == (old(self).counter + 1) % 0x1_0000_0000_0000_0000,
    {
        let r = self.counter % MAX_BOX_ID;
        self.counter = self.counter.wrapping_add(1);
        r
    }
}

/// Counting admission control: at most `capacity` sandboxes are active at once.
///
/// The capacity should not exceed `MAX_BOX_ID`, else two active sandboxes may hold the
/// same wrapped identifier; that is left to the deployment.
pub struct ConcurrencyGate {
    pub capacity: u64,
    pub active: u64,
}

impl ConcurrencyGate {
    pub open spec fn wf(&self) -> bool {
        self.active <= self.capacity
    }

    pub fn new(capacity: u64) -> (r: ConcurrencyGate)
        ensures
            r.wf(),
            r.capacity == capacity,
            r.active == 0,
    {
        ConcurrencyGate { capacity, active: 0 }
    }

    /// Admits one more sandbox when fewer than `capacity` are active; otherwise the
    /// caller has to wait for a release.
    pub fn try_acquire(&mut self) -> (admitted: bool)
        requires
            old(self).wf(),
        ensures
            final(self).wf(),
            final(self).capacity == old(self).capacity,
            admitted == admits(old(self).capacity as nat, old(self).active as nat),
            final(self).active == step_active(
                old(self).capacity as nat,
                old(self).active as nat,
                GateEvent::Acquire,
            ),
    {
        if self.active < self.capacity {
            self.active = self.active + 1;
            true
        } else {
            false
        }
    }

    /// Gives back one admission.
    pub fn release(&mut self)
        requires
            old(self).wf(),
            old(self).active > 0,
        ensures
            final(self).wf(),
            final(self).capacity == old(self).capacity,
            final(self).active == step_active(
                old(self).capacity as nat,
                old(self).active as nat,
                GateEvent::Release,
            ),
    {
        self.active = self.active - 1;
    }
}

/// What callers do to a gate.
pub enum GateEvent {
    Acquire,
    Release,
}

/// Whether a gate with `active` admissions admits one more.
pub open spec fn admits(capacity: nat, active: nat) -> bool {
    active < capacity
}

/// The number of admissions after one event: a refused acquire and a release with
/// nothing active change nothing.
pub open spec fn step_active(capacity: nat, active: nat, e: GateEvent) -> nat {
    match e {
        GateEvent::Acquire => if admits(capacity, active) {
            active + 1
        } else {
            active
        },
        GateEvent::Release => if active > 0 {
            (active - 1) as nat
        } else {
            active
        },
    }
}

/// The number of admissions after a sequence of events on a fresh gate.
pub open spec fn active_after(capacity: nat, events: Seq<GateEvent>) -> nat
    decreases events.len(),
{
    if events.len() == 0 {
        0
    } else {
        step_active(capacity, active_after(capacity, events.drop_last()), events.last())
    }
}

/// Whatever callers do, a gate never has more than `capacity` admissions.
pub proof fn lemma_gate_bounded(capacity: nat, events: Seq<GateEvent>)
    ensures
        active_after(capacity, events) <= capacity,
    decreases events.len(),
{
    if events.len() > 0 {
        lemma_gate_bounded(capacity, events.drop_last());
    }
}

/// After `capacity` acquires on a fresh gate, each with no release between, the next
/// caller is not admitted: it waits until one of them releases, and is then admitted.
pub proof fn lemma_gate_full(capacity: nat)
    ensures
        active_after(capacity, Seq::new(capacity, |i: int| GateEvent::Acquire)) == capacity,
        !admits(capacity, active_after(capacity, Seq::new(capacity, |i: int| GateEvent::Acquire))),
        admits(
            capacity,
            active_after(
                capacity,
                Seq::new(capacity, |i: int| GateEvent::Acquire).push(GateEvent::Release),
            ),
        ) || capacity == 0,
{
    lemma_acquires(capacity, capacity);
    let full = Seq::new(capacity, |i: int| GateEvent::Acquire);
    assert(full.push(GateEvent::Release).drop_last() =~= full);
}

proof fn lemma_acquires(capacity: nat, k: nat)
    requires
        k <= capacity,
    ensures
        active_after(capacity, Seq::new(k, |i: int| GateEvent::Acquire)) == k,
    decreases k,
{
    if k > 0 {
        let s = Seq::new(k, |i: int| GateEvent::Acquire);
        assert(s.drop_last() =~= Seq::new((k - 1) as nat, |i: int| GateEvent::Acquire));
        lemma_acquires(capacity, (k - 1) as nat);
    }
}

/// Slot `v` is among the `MAX_BOX_ID` identifiers handed out from `counter` on.
pub open spec fn slot_reached(counter: u64, v: int) -> bool {
    exists|j: int| 0 <= j < MAX_BOX_ID && #[trigger] box_id_of((counter + j) as nat) == v
}

/// `MAX_BOX_ID` consecutive identifiers, from any counter that does not wrap on the way,
/// are all distinct and cover every slot; the next `MAX_BOX_ID` repeat them in order.
pub proof fn lemma_box_ids_cycle(counter: u64)
    requires
        counter as int + 2 * MAX_BOX_ID as int <= u64::MAX as int,
    ensures
        forall|j: int, k: int|
            0 <= j < k < MAX_BOX_ID ==> #[trigger] box_id_of((counter + j) as nat)
                != #[trigger] box_id_of((counter + k) as nat),
        forall|v: int| 0 <= v < MAX_BOX_ID ==> #[trigger] slot_reached(counter, v),
        forall|j: int|
            0 <= j < MAX_BOX_ID ==> #[trigger] box_id_of((counter + j + MAX_BOX_ID) as nat)
                == box_id_of((counter + j) as nat),
{
    assert forall|j: int, k: int|
        0 <= j < k < MAX_BOX_ID implies #[trigger] box_id_of((counter + j) as nat)
            != #[trigger] box_id_of((counter + k) as nat) by {
        assert(((counter + j) as nat) % 0x1_0000_0000_0000_0000 == counter + j);
        assert(((counter + k) as nat) % 0x1_0000_0000_0000_0000 == counter + k);
        assert((counter + j) % 900 != (counter + k) % 900) by (nonlinear_arith)
            requires
                0 <= j < k < 900,
        {
            vstd::arithmetic::div_mod::lemma_fundamental_div_mod(counter + j, 900);
            vstd::arithmetic::div_mod::lemma_fundamental_div_mod(counter + k, 900);
        }
    }
    assert forall|v: int| 0 <= v < MAX_BOX_ID implies #[trigger] slot_reached(counter, v) by {
        let c = counter as int;
        let j = if v >= c % 900 { v - c % 900 } else { v + 900 - c % 900 };
        assert(((c + j) as nat) % 0x1_0000_0000_0000_0000 == c + j);
        vstd::arithmetic::div_mod::lemma_fundamental_div_mod(c, 900);
        vstd::arithmetic::div_mod::lemma_mod_add_multiples_vanish(v, 900);
        assert((c + j) % 900 == v) by {
            if v >= c % 900 {
                assert(c + j == 900 * (c / 900) + v);
            } else {
                assert(c + j == 900 * (c / 900 + 1) + v);
            }
            vstd::arithmetic::div_mod::lemma_mod_multiples_vanish(
                if v >= c % 900 { c / 900 } else { c / 900 + 1 },
                v,
                900,
            );
            vstd::arithmetic::div_mod::lemma_small_mod(v as nat, 900);
        }
        assert(box_id_of((counter + j) as nat) == v);
    }
    assert forall|j: int| 0 <= j < MAX_BOX_ID implies #[trigger] box_id_of((counter + j + MAX_BOX_ID) as nat)
        == box_id_of((counter + j) as nat) by {
        assert(((counter + j) as nat) % 0x1_0000_0000_0000_0000 == counter + j);
        assert(((counter + j + 900) as nat) % 0x1_0000_0000_0000_0000 == counter + j + 900);
        vstd::arithmetic::div_mod::lemma_mod_add_multiples_vanish(counter + j, 900);
    }
}

} // verus!
