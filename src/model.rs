use vstd::prelude::*;
use crate::subsystem::{Subsystem, flag_of};

verus! {

/// A native teardown call that the caller must perform, in the order given.
#[derive(Clone, Copy, Debug, PartialEq, Eq, Structural)]
pub enum Teardown {
    /// Shut the whole native library down.
    Quit,
    /// Quit the subsystem with this flag once.
    QuitSubSystem(u32),
}

/// Shared-ownership record of one subsystem handle chain.
#[derive(Clone, Copy, Debug)]
pub struct Slot {
    pub kind: Subsystem,
    pub refs: u64,
}

/// Abstract state of the process-wide lifecycle bookkeeping.
pub struct RuntimeState {
    /// A context exists or is being initialised.
    pub context_alive: bool,
    /// The native init call of the context is in progress.
    pub init_pending: bool,
    /// Owners of the context's teardown chain: context handles, live
    /// subsystem chains and the event pump.
    pub context_refs: nat,
    /// An event pump exists or is being obtained.
    pub pump_alive: bool,
    /// The native events init call of the event pump is in progress.
    pub pump_pending: bool,
    /// One record per subsystem chain ever opened; a record with no
    /// references is free for reuse.
    pub slots: Seq<Slot>,
}

pub open spec fn slot_live(s: Slot) -> nat {
    if s.refs > 0 { 1 } else { 0 }
}

/// Number of subsystem chains that are still referenced.
pub open spec fn live_slots(s: Seq<Slot>) -> nat
    decreases s.len(),
{
    if s.len() == 0 {
        0
    } else {
        live_slots(s.drop_last()) + slot_live(s.last())
    }
}

impl RuntimeState {
    pub open spec fn pump_hold(self) -> nat {
        if self.pump_alive { 1 } else { 0 }
    }

    /// References held by context handles themselves.
    pub open spec fn direct_refs(self) -> int {
        self.context_refs - live_slots(self.slots) - self.pump_hold()
    }

    /// A fully initialised context exists.
    pub open spec fn is_live(self) -> bool {
        self.context_alive && !self.init_pending
    }

    /// The bookkeeping is consistent: nothing outlives the context, and every
    /// live subsystem chain and the event pump each own one context reference.
    pub open spec fn wf(self) -> bool {
        &&& !self.context_alive ==> {
            &&& self.context_refs == 0
            &&& !self.init_pending
            &&& !self.pump_alive
            &&& live_slots(self.slots) == 0
        }
        &&& self.init_pending ==> {
            &&& self.context_refs == 0
            &&& !self.pump_alive
            &&& live_slots(self.slots) == 0
        }
        &&& self.is_live() ==> self.context_refs > 0
        &&& self.pump_pending ==> self.pump_alive
        &&& self.context_refs >= live_slots(self.slots) + self.pump_hold()
    }

    /// Nothing alive, nothing in progress.
    pub open spec fn is_idle(self) -> bool {
        &&& !self.context_alive
        &&& !self.init_pending
        &&& self.context_refs == 0
        &&& !self.pump_alive
        &&& !self.pump_pending
        &&& live_slots(self.slots) == 0
    }

    /// First phase of context initialisation: admitted (and the native init
    /// call owed) exactly when no context is alive.
    pub open spec fn begin_init(self) -> (RuntimeState, bool) {
        if self.context_alive {
            (self, false)
        } else {
            (RuntimeState { context_alive: true, init_pending: true, ..self }, true)
        }
    }

    /// Second phase of context initialisation, given whether the native init succeeded.
    pub open spec fn finish_init(self, ok: bool) -> RuntimeState {
        if ok {
            RuntimeState { init_pending: false, context_refs: 1, ..self }
        } else {
            RuntimeState { context_alive: false, init_pending: false, ..self }
        }
    }

    /// One more owner of the context's teardown chain.
    pub open spec fn take_ref(self) -> RuntimeState {
        RuntimeState { context_refs: self.context_refs + 1, ..self }
    }

    /// One owner of the context's teardown chain goes away; the last one
    /// shuts the native library down.
    pub open spec fn release_ref(self) -> (RuntimeState, Seq<Teardown>) {
        let n = (self.context_refs - 1) as nat;
        if n == 0 {
            (RuntimeState { context_alive: false, context_refs: 0, ..self }, seq![Teardown::Quit])
        } else {
            (RuntimeState { context_refs: n, ..self }, Seq::empty())
        }
    }

    /// A new subsystem chain of `kind` with one reference, recorded at index
    /// `i`: a free record, or one past the last.
    pub open spec fn open_slot(self, kind: Subsystem, i: int) -> RuntimeState {
        let rec = Slot { kind, refs: 1 };
        RuntimeState {
            context_refs: self.context_refs + 1,
            slots: if i < self.slots.len() { self.slots.update(i, rec) } else { self.slots.push(rec) },
            ..self
        }
    }

    /// One more reference to the subsystem chain at `i`.
    pub open spec fn dup_slot(self, i: int) -> RuntimeState {
        let s = self.slots[i];
        RuntimeState { slots: self.slots.update(i, Slot { refs: (s.refs + 1) as u64, ..s }), ..self }
    }

    /// One reference to the subsystem chain at `i` goes away; the last one
    /// quits the subsystem and gives up the chain's context reference.
    pub open spec fn release_slot(self, i: int) -> (RuntimeState, Seq<Teardown>) {
        let s = self.slots[i];
        let after = RuntimeState {
            slots: self.slots.update(i, Slot { refs: (s.refs - 1) as u64, ..s }),
            ..self
        };
        if s.refs == 1 {
            let (fin, calls) = after.release_ref();
            (fin, seq![Teardown::QuitSubSystem(flag_of(s.kind))] + calls)
        } else {
            (after, Seq::empty())
        }
    }

    /// First phase of obtaining the event pump: admitted (and the native
    /// events init call owed) exactly when no event pump is alive; the pump
    /// owns a context reference from then on.
    pub open spec fn begin_pump(self) -> (RuntimeState, bool) {
        if self.pump_alive {
            (self, false)
        } else {
            (
                RuntimeState {
                    pump_alive: true,
                    pump_pending: true,
                    context_refs: self.context_refs + 1,
                    ..self
                },
                true,
            )
        }
    }

    /// Second phase of obtaining the event pump, given whether the native
    /// events init succeeded.
    pub open spec fn finish_pump(self, ok: bool) -> RuntimeState {
        if ok {
            RuntimeState { pump_pending: false, ..self }
        } else {
            RuntimeState {
                pump_alive: false,
                pump_pending: false,
                context_refs: (self.context_refs - 1) as nat,
                ..self
            }
        }
    }

    /// The event pump goes away: quit the events subsystem, then give up the
    /// pump's context reference.
    pub open spec fn release_pump(self) -> (RuntimeState, Seq<Teardown>) {
        let after = RuntimeState { pump_alive: false, ..self };
        let (fin, calls) = after.release_ref();
        (fin, seq![Teardown::QuitSubSystem(flag_of(Subsystem::Events))] + calls)
    }
}

/// Live-record count after replacing one record.
pub proof fn lemma_live_slots_update(s: Seq<Slot>, i: int, v: Slot)
    requires
        0 <= i < s.len(),
    ensures
        live_slots(s.update(i, v)) == live_slots(s) - slot_live(s[i]) + slot_live(v),
    decreases s.len(),
{
    if i == s.len() - 1 {
        assert(s.update(i, v).drop_last() =~= s.drop_last());
    } else {
        lemma_live_slots_update(s.drop_last(), i, v);
        assert(s.update(i, v).drop_last() =~= s.drop_last().update(i, v));
    }
}

/// Live-record count after appending one record.
pub proof fn lemma_live_slots_push(s: Seq<Slot>, v: Slot)
    ensures
        live_slots(s.push(v)) == live_slots(s) + slot_live(v),
{
    assert(s.push(v).drop_last() =~= s);
}

/// A live record counts towards the live-record total.
pub proof fn lemma_live_slot_counted(s: Seq<Slot>, i: int)
    requires
        0 <= i < s.len(),
        s[i].refs > 0,
    ensures
        live_slots(s) >= 1,
    decreases s.len(),
{
    if i < s.len() - 1 {
        lemma_live_slot_counted(s.drop_last(), i);
    }
}

} // verus!
