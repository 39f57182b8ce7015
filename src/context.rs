use vstd::prelude::*;
use crate::error::ContextError;
use crate::model::{
    RuntimeState, Slot, Teardown, lemma_live_slots_update, lemma_live_slots_push,
    lemma_live_slot_counted,
};
use crate::subsystem::Subsystem;

verus! {

/// Process-wide lifecycle bookkeeping of the native library: whether a
/// context is alive, who owns it, which subsystem chains are referenced, and
/// whether the event pump exists.
pub struct Runtime {
    context_alive: bool,
    init_pending: bool,
    context_refs: u64,
    pump_alive: bool,
    pump_pending: bool,
    slots: Vec<Slot>,
}

impl View for Runtime {
    type V = RuntimeState;

    closed spec fn view(&self) -> RuntimeState {
        RuntimeState {
            context_alive: self.context_alive,
            init_pending: self.init_pending,
            context_refs: self.context_refs as nat,
            pump_alive: self.pump_alive,
            pump_pending: self.pump_pending,
            slots: self.slots@,
        }
    }
}

impl Runtime {
    /// Bookkeeping with nothing alive.
    pub fn new() -> (r: Runtime)
        ensures
            r@.wf(),
            r@.is_idle(),
            r@.slots.len() == 0,
    {
        Runtime {
            context_alive: false,
            init_pending: false,
            context_refs: 0,
            pump_alive: false,
            pump_pending: false,
            slots: Vec::new(),
        }
    }

    /// Whether a context exists or is being initialised.
    pub fn is_context_alive(&self) -> (r: bool)
        ensures
            r == self@.context_alive,
    {
        self.context_alive
    }

    /// Whether a fully initialised context exists.
    pub fn is_live(&self) -> (r: bool)
        ensures
            r == self@.is_live(),
    {
        self.context_alive && !self.init_pending
    }

    /// Whether an event pump exists or is being obtained.
    pub fn is_event_pump_alive(&self) -> (r: bool)
        ensures
            r == self@.pump_alive,
    {
        self.pump_alive
    }

    /// Number of owners of the context's teardown chain.
    pub fn context_refs(&self) -> (r: u64)
        ensures
            r as nat == self@.context_refs,
    {
        self.context_refs
    }

    /// Whether one more context reference fits the counter.
    pub fn has_ref_room(&self) -> (r: bool)
        ensures
            r == (self@.context_refs < u64::MAX),
    {
        self.context_refs < u64::MAX
    }

    fn take_ref(&mut self)
        requires
            old(self)@.wf(),
            old(self)@.is_live(),
            old(self)@.context_refs < u64::MAX,
        ensures
            final(self)@ == old(self)@.take_ref(),
            final(self)@.wf(),
    {
        self.context_refs = self.context_refs + 1;
    }

    /// Gives up one context reference that is not held by a live subsystem
    /// chain or the event pump.
    fn release_ref(&mut self) -> (r: Vec<Teardown>)
        requires
            old(self)@.wf(),
            old(self)@.is_live(),
            old(self)@.direct_refs() >= 1,
        ensures
            (final(self)@, r@) == old(self)@.release_ref(),
            final(self)@.wf(),
    {
        self.context_refs = self.context_refs - 1;
        let mut calls: Vec<Teardown> = Vec::new();
        if self.context_refs == 0 {
            self.context_alive = false;
            calls.push(Teardown::Quit);
        }
        proof {
            assert(calls@ =~= old(self)@.release_ref().1);
        }
        calls
    }

    /// Records a new subsystem chain of `kind`, reusing a free record when
    /// there is one.
    fn open_slot(&mut self, kind: Subsystem) -> (i: usize)
        requires
            old(self)@.wf(),
            old(self)@.is_live(),
            old(self)@.context_refs < u64::MAX,
        ensures
            i <= old(self)@.slots.len(),
            i < old(self)@.slots.len() ==> old(self)@.slots[i as int].refs == 0,
            forall|j: int| 0 <= j < i && j < old(self)@.slots.len() ==> old(self)@.slots[j].refs > 0,
            final(self)@ == old(self)@.open_slot(kind, i as int),
            final(self)@.wf(),
            final(self)@.slots[i as int] == (Slot { kind, refs: 1 }),
    {
        let ghost pre = self@;
        let rec = Slot { kind, refs: 1 };
        let mut i: usize = 0;
        while i < self.slots.len()
            invariant
                self@ == pre,
                pre == old(self)@,
                rec == (Slot { kind, refs: 1 }),
                pre.wf(),
                pre.is_live(),
                pre.context_refs < u64::MAX,
                i <= self.slots@.len(),
                forall|j: int| 0 <= j < i ==> self.slots@[j].refs > 0,
            decreases self.slots@.len() - i,
        {
            if self.slots[i].refs == 0 {
                self.slots.set(i, rec);
                self.context_refs = self.context_refs + 1;
                proof {
                    lemma_live_slots_update(pre.slots, i as int, rec);
                    assert(self.slots@ =~= pre.slots.update(i as int, rec));
                    assert(self@ == pre.open_slot(kind, i as int));
                }
                return i;
            }
            i = i + 1;
        }
        self.slots.push(rec);
        self.context_refs = self.context_refs + 1;
        proof {
            lemma_live_slots_push(pre.slots, rec);
            assert(self.slots@ =~= pre.slots.push(rec));
            assert(self@ == pre.open_slot(kind, i as int));
        }
        i
    }
}

/// One owning reference to the context's teardown chain: the native library
/// is shut down when the last such reference is released.
pub struct SdlDrop {
    _owner: (),
}

impl SdlDrop {
    /// Gives up this reference; returns the native teardown calls owed.
    pub fn release(self, rt: &mut Runtime) -> (r: Vec<Teardown>)
        requires
            old(rt)@.wf(),
            old(rt)@.direct_refs() >= 1,
        ensures
            (final(rt)@, r@) == old(rt)@.release_ref(),
            final(rt)@.wf(),
    {
        rt.release_ref()
    }
}

/// A context handle. Every handle derived from it keeps the context alive.
pub struct Sdl {
    sdldrop: SdlDrop,
}

/// Admission to the native init call of a new context.
pub struct InitTicket {
    _owner: (),
}

/// Admission to the native events init call of the event pump.
pub struct PumpTicket {
    _owner: (),
}

/// The single event pump; it keeps the context alive.
pub struct EventPump {
    _owner: (),
}

/// A shared-ownership handle on one activation of a subsystem; it keeps the
/// context alive. The last reference to the chain quits the subsystem.
pub struct SubsystemHandle {
    slot: usize,
    kind: Subsystem,
}

/// First phase of context initialisation. It is refused, with no native call
/// owed, while a context is alive; otherwise the context is reserved and the
/// caller owes the native init call, whose outcome it hands to
/// [`InitTicket::complete`].
pub fn init(rt: &mut Runtime) -> (r: Result<InitTicket, ContextError>)
    requires
        old(rt)@.wf(),
    ensures
        (final(rt)@, r is Ok) == old(rt)@.begin_init(),
        r is Ok <==> !old(rt)@.context_alive,
        r matches Err(e) ==> e is AlreadyInitialized,
        final(rt)@.wf(),
{
    if rt.context_alive {
        Err(ContextError::AlreadyInitialized)
    } else {
        rt.context_alive = true;
        rt.init_pending = true;
        Ok(InitTicket { _owner: () })
    }
}

impl InitTicket {
    /// Second phase of context initialisation. `status` is what the native
    /// init call returned (zero for success) and `error_text` the native error
    /// text read after it. On failure the reservation is dropped.
    pub fn complete(self, rt: &mut Runtime, status: i32, error_text: String) -> (r: Result<
        Sdl,
        ContextError,
    >)
        requires
            old(rt)@.wf(),
            old(rt)@.init_pending,
        ensures
            final(rt)@ == old(rt)@.finish_init(status == 0),
            r is Ok <==> status == 0,
            r matches Err(e) ==> (e matches ContextError::Native(m) && m@ == error_text@),
            final(rt)@.wf(),
            r is Ok ==> final(rt)@.direct_refs() == 1,
    {
        if status == 0 {
            rt.init_pending = false;
            rt.context_refs = 1;
            Ok(Sdl { sdldrop: SdlDrop { _owner: () } })
        } else {
            rt.context_alive = false;
            rt.init_pending = false;
            Err(ContextError::Native(error_text))
        }
    }
}

/// What opening a subsystem chain of `kind` did, given the native
/// subsystem init call's `status` and the native error text read after it.
pub open spec fn opened(
    pre: RuntimeState,
    post: RuntimeState,
    kind: Subsystem,
    status: i32,
    error_text: Seq<char>,
    r: Result<SubsystemHandle, ContextError>,
) -> bool {
    &&& r is Ok <==> status == 0
    &&& r matches Ok(h) ==> {
        &&& h.kind_spec() == kind
        &&& 0 <= h.index() <= pre.slots.len()
        &&& h.index() < pre.slots.len() ==> pre.slots[h.index()].refs == 0
        &&& post == pre.open_slot(kind, h.index())
        &&& post.slots[h.index()].refs == 1
    }
    &&& r matches Err(e) ==> {
        &&& e matches ContextError::Native(m) && m@ == error_text
        &&& post == pre
    }
    &&& post.wf()
}

impl Sdl {
    /// Opens a subsystem chain of `kind` after the native subsystem init call
    /// returned `status` (zero for success); `error_text` is the native error
    /// text read after that call.
    pub fn subsystem(&self, rt: &mut Runtime, kind: Subsystem, status: i32, error_text: String) -> (r: Result<
        SubsystemHandle,
        ContextError,
    >)
        requires
            old(rt)@.wf(),
            old(rt)@.direct_refs() >= 1,
            old(rt)@.context_refs < u64::MAX,
        ensures
            opened(old(rt)@, final(rt)@, kind, status, error_text@, r),
    {
        if status == 0 {
            let i = rt.open_slot(kind);
            Ok(SubsystemHandle { slot: i, kind })
        } else {
            Err(ContextError::Native(error_text))
        }
    }

    /// Opens an audio subsystem chain; see [`Sdl::subsystem`].
    pub fn audio(&self, rt: &mut Runtime, status: i32, error_text: String) -> (r: Result<SubsystemHandle, ContextError>)
        requires
            old(rt)@.wf(),
            old(rt)@.direct_refs() >= 1,
            old(rt)@.context_refs < u64::MAX,
        ensures
            opened(old(rt)@, final(rt)@, Subsystem::Audio, status, error_text@, r),
    {
        self.subsystem(rt, Subsystem::Audio, status, error_text)
    }

    /// Opens an events subsystem chain; see [`Sdl::subsystem`].
    pub fn event(&self, rt: &mut Runtime, status: i32, error_text: String) -> (r: Result<SubsystemHandle, ContextError>)
        requires
            old(rt)@.wf(),
            old(rt)@.direct_refs() >= 1,
            old(rt)@.context_refs < u64::MAX,
        ensures
            opened(old(rt)@, final(rt)@, Subsystem::Events, status, error_text@, r),
    {
        self.subsystem(rt, Subsystem::Events, status, error_text)
    }

    /// Opens a joystick subsystem chain; see [`Sdl::subsystem`].
    pub fn joystick(&self, rt: &mut Runtime, status: i32, error_text: String) -> (r: Result<SubsystemHandle, ContextError>)
        requires
            old(rt)@.wf(),
            old(rt)@.direct_refs() >= 1,
            old(rt)@.context_refs < u64::MAX,
        ensures
            opened(old(rt)@, final(rt)@, Subsystem::Joystick, status, error_text@, r),
    {
        self.subsystem(rt, Subsystem::Joystick, status, error_text)
    }

    /// Opens a haptic subsystem chain; see [`Sdl::subsystem`].
    pub fn haptic(&self, rt: &mut Runtime, status: i32, error_text: String) -> (r: Result<SubsystemHandle, ContextError>)
        requires
            old(rt)@.wf(),
            old(rt)@.direct_refs() >= 1,
            old(rt)@.context_refs < u64::MAX,
        ensures
            opened(old(rt)@, final(rt)@, Subsystem::Haptic, status, error_text@, r),
    {
        self.subsystem(rt, Subsystem::Haptic, status, error_text)
    }

    /// Opens a game controller subsystem chain; see [`Sdl::subsystem`].
    pub fn game_controller(&self, rt: &mut Runtime, status: i32, error_text: String) -> (r: Result<SubsystemHandle, ContextError>)
        requires
            old(rt)@.wf(),
            old(rt)@.direct_refs() >= 1,
            old(rt)@.context_refs < u64::MAX,
        ensures
            opened(old(rt)@, final(rt)@, Subsystem::GameController, status, error_text@, r),
    {
        self.subsystem(rt, Subsystem::GameController, status, error_text)
    }

    /// Opens a timer subsystem chain; see [`Sdl::subsystem`].
    pub fn timer(&self, rt: &mut Runtime, status: i32, error_text: String) -> (r: Result<SubsystemHandle, ContextError>)
        requires
            old(rt)@.wf(),
            old(rt)@.direct_refs() >= 1,
            old(rt)@.context_refs < u64::MAX,
        ensures
            opened(old(rt)@, final(rt)@, Subsystem::Timer, status, error_text@, r),
    {
        self.subsystem(rt, Subsystem::Timer, status, error_text)
    }

    /// Opens a video subsystem chain; see [`Sdl::subsystem`].
    pub fn video(&self, rt: &mut Runtime, status: i32, error_text: String) -> (r: Result<SubsystemHandle, ContextError>)
        requires
            old(rt)@.wf(),
            old(rt)@.direct_refs() >= 1,
            old(rt)@.context_refs < u64::MAX,
        ensures
            opened(old(rt)@, final(rt)@, Subsystem::Video, status, error_text@, r),
    {
        self.subsystem(rt, Subsystem::Video, status, error_text)
    }

    /// First phase of obtaining the event pump. It is refused while an event
    /// pump is alive; otherwise the pump is reserved, takes its context
    /// reference, and the caller owes the native events init call, whose
    /// outcome it hands to [`PumpTicket::complete`].
    pub fn event_pump(&self, rt: &mut Runtime) -> (r: Result<PumpTicket, ContextError>)
        requires
            old(rt)@.wf(),
            old(rt)@.direct_refs() >= 1,
            old(rt)@.context_refs < u64::MAX,
        ensures
            (final(rt)@, r is Ok) == old(rt)@.begin_pump(),
            r is Ok <==> !old(rt)@.pump_alive,
            r matches Err(e) ==> e is AlreadyActive,
            final(rt)@.wf(),
            final(rt)@.direct_refs() == old(rt)@.direct_refs(),
    {
        if rt.pump_alive {
            Err(ContextError::AlreadyActive)
        } else {
            rt.pump_alive = true;
            rt.pump_pending = true;
            rt.context_refs = rt.context_refs + 1;
            Ok(PumpTicket { _owner: () })
        }
    }

    /// Another handle on the same context.
    pub fn duplicate(&self, rt: &mut Runtime) -> (r: Sdl)
        requires
            old(rt)@.wf(),
            old(rt)@.direct_refs() >= 1,
            old(rt)@.context_refs < u64::MAX,
        ensures
            final(rt)@ == old(rt)@.take_ref(),
            final(rt)@.wf(),
            final(rt)@.direct_refs() == old(rt)@.direct_refs() + 1,
    {
        rt.take_ref();
        Sdl { sdldrop: SdlDrop { _owner: () } }
    }

    /// Another owning reference to the context's teardown chain.
    pub fn sdldrop(&self, rt: &mut Runtime) -> (r: SdlDrop)
        requires
            old(rt)@.wf(),
            old(rt)@.direct_refs() >= 1,
            old(rt)@.context_refs < u64::MAX,
        ensures
            final(rt)@ == old(rt)@.take_ref(),
            final(rt)@.wf(),
            final(rt)@.direct_refs() == old(rt)@.direct_refs() + 1,
    {
        rt.take_ref();
        SdlDrop { _owner: () }
    }

    /// Gives up this handle; returns the native teardown calls owed.
    pub fn release(self, rt: &mut Runtime) -> (r: Vec<Teardown>)
        requires
            old(rt)@.wf(),
            old(rt)@.direct_refs() >= 1,
        ensures
            (final(rt)@, r@) == old(rt)@.release_ref(),
            final(rt)@.wf(),
    {
        self.sdldrop.release(rt)
    }
}

impl PumpTicket {
    /// Second phase of obtaining the event pump. `status` is what the native
    /// events init call returned (zero for success) and `error_text` the
    /// native error text read after it. On failure the reservation and its
    /// context reference are dropped; the context handle through which the
    /// pump was asked for is still held, so no teardown is owed.
    pub fn complete(self, rt: &mut Runtime, status: i32, error_text: String) -> (r: Result<
        EventPump,
        ContextError,
    >)
        requires
            old(rt)@.wf(),
            old(rt)@.pump_pending,
            old(rt)@.direct_refs() >= 1,
        ensures
            final(rt)@ == old(rt)@.finish_pump(status == 0),
            r is Ok <==> status == 0,
            r matches Err(e) ==> (e matches ContextError::Native(m) && m@ == error_text@),
            final(rt)@.wf(),
            final(rt)@.direct_refs() == old(rt)@.direct_refs(),
    {
        if status == 0 {
            rt.pump_pending = false;
            Ok(EventPump { _owner: () })
        } else {
            rt.pump_alive = false;
            rt.pump_pending = false;
            rt.context_refs = rt.context_refs - 1;
            Err(ContextError::Native(error_text))
        }
    }
}

impl EventPump {
    /// Gives up the event pump; returns the native teardown calls owed:
    /// quitting the events subsystem, then the context's shutdown if this
    /// was its last owner.
    pub fn release(self, rt: &mut Runtime) -> (r: Vec<Teardown>)
        requires
            old(rt)@.wf(),
            old(rt)@.pump_alive,
            !old(rt)@.pump_pending,
        ensures
            (final(rt)@, r@) == old(rt)@.release_pump(),
            !final(rt)@.pump_alive,
            final(rt)@.wf(),
    {
        rt.pump_alive = false;
        let mut calls: Vec<Teardown> = Vec::new();
        calls.push(Teardown::QuitSubSystem(Subsystem::Events.flag()));
        let mut rest = rt.release_ref();
        calls.append(&mut rest);
        proof {
            assert(calls@ =~= old(rt)@.release_pump().1);
        }
        calls
    }
}

impl SubsystemHandle {
    /// Index of this chain's record in the bookkeeping.
    pub closed spec fn index(&self) -> int {
        self.slot as int
    }

    pub closed spec fn kind_spec(&self) -> Subsystem {
        self.kind
    }

    /// This handle is one of the references of a live chain of its kind.
    pub open spec fn held_in(&self, st: RuntimeState) -> bool {
        &&& 0 <= self.index() < st.slots.len()
        &&& st.slots[self.index()].refs > 0
        &&& st.slots[self.index()].kind == self.kind_spec()
    }

    /// The subsystem this handle activates.
    pub fn kind(&self) -> (r: Subsystem)
        ensures
            r == self.kind_spec(),
    {
        self.kind
    }

    /// Number of references to this handle's chain.
    pub fn ref_count(&self, rt: &Runtime) -> (r: u64)
        requires
            self.held_in(rt@),
        ensures
            r == rt@.slots[self.index()].refs,
    {
        rt.slots[self.slot].refs
    }

    /// Another reference to the same chain.
    pub fn duplicate(&self, rt: &mut Runtime) -> (r: SubsystemHandle)
        requires
            old(rt)@.wf(),
            self.held_in(old(rt)@),
            old(rt)@.slots[self.index()].refs < u64::MAX,
        ensures
            final(rt)@ == old(rt)@.dup_slot(self.index()),
            r.index() == self.index(),
            r.kind_spec() == self.kind_spec(),
            r.held_in(final(rt)@),
            self.held_in(final(rt)@),
            final(rt)@.wf(),
    {
        let ghost pre = rt@;
        let s = rt.slots[self.slot];
        let rec = Slot { kind: s.kind, refs: s.refs + 1 };
        rt.slots.set(self.slot, rec);
        proof {
            lemma_live_slots_update(pre.slots, self.index(), rec);
            assert(rt.slots@ =~= pre.slots.update(self.index(), rec));
        }
        SubsystemHandle { slot: self.slot, kind: self.kind }
    }

    /// A context handle on the context this chain keeps alive.
    pub fn sdl(&self, rt: &mut Runtime) -> (r: Sdl)
        requires
            old(rt)@.wf(),
            self.held_in(old(rt)@),
            old(rt)@.context_refs < u64::MAX,
        ensures
            final(rt)@ == old(rt)@.take_ref(),
            final(rt)@.wf(),
            final(rt)@.direct_refs() == old(rt)@.direct_refs() + 1,
            self.held_in(final(rt)@),
    {
        proof {
            lemma_live_slot_counted(rt@.slots, self.index());
        }
        rt.take_ref();
        Sdl { sdldrop: SdlDrop { _owner: () } }
    }

    /// Gives up this reference; returns the native teardown calls owed:
    /// the last reference of the chain quits its subsystem once, then gives
    /// up the chain's context reference.
    pub fn release(self, rt: &mut Runtime) -> (r: Vec<Teardown>)
        requires
            old(rt)@.wf(),
            self.held_in(old(rt)@),
        ensures
            (final(rt)@, r@) == old(rt)@.release_slot(self.index()),
            final(rt)@.wf(),
    {
        let ghost pre = rt@;
        proof {
            lemma_live_slot_counted(pre.slots, self.index());
        }
        let s = rt.slots[self.slot];
        let rec = Slot { kind: s.kind, refs: s.refs - 1 };
        rt.slots.set(self.slot, rec);
        proof {
            lemma_live_slots_update(pre.slots, self.index(), rec);
            assert(rt.slots@ =~= pre.slots.update(self.index(), rec));
        }
        let mut calls: Vec<Teardown> = Vec::new();
        if s.refs == 1 {
            calls.push(Teardown::QuitSubSystem(s.kind.flag()));
            let mut rest = rt.release_ref();
            calls.append(&mut rest);
        }
        proof {
            assert(calls@ =~= pre.release_slot(self.index()).1);
        }
        calls
    }
}

} // verus!
