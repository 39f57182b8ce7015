use vstd::prelude::*;
use crate::error::{c_content, nul_free};
use crate::model::{RuntimeState, Slot, Teardown, live_slots, lemma_live_slots_update, lemma_live_slot_counted};
use crate::subsystem::flag_of;

verus! {

/// `n` initialisation attempts in a row, without completing any: the final
/// state and how many were admitted.
pub open spec fn init_attempts(st: RuntimeState, n: nat) -> (RuntimeState, nat)
    decreases n,
{
    if n == 0 {
        (st, 0)
    } else {
        let (a, admitted) = st.begin_init();
        let (b, k) = init_attempts(a, (n - 1) as nat);
        (b, k + if admitted { 1nat } else { 0nat })
    }
}

/// `n` releases of context references in a row: the final state and the
/// teardown calls owed, in order.
pub open spec fn release_refs(st: RuntimeState, n: nat) -> (RuntimeState, Seq<Teardown>)
    decreases n,
{
    if n == 0 {
        (st, Seq::empty())
    } else {
        let (a, c) = st.release_ref();
        let (b, d) = release_refs(a, (n - 1) as nat);
        (b, c + d)
    }
}

/// `n` duplications of the subsystem chain at `i`.
pub open spec fn dup_chain(st: RuntimeState, i: int, n: nat) -> RuntimeState
    decreases n,
{
    if n == 0 {
        st
    } else {
        dup_chain(st.dup_slot(i), i, (n - 1) as nat)
    }
}

/// `n` releases of references to the subsystem chain at `i`: the final
/// state and the teardown calls owed, in order.
pub open spec fn release_chain(st: RuntimeState, i: int, n: nat) -> (RuntimeState, Seq<Teardown>)
    decreases n,
{
    if n == 0 {
        (st, Seq::empty())
    } else {
        let (a, c) = st.release_slot(i);
        let (b, d) = release_chain(a, i, (n - 1) as nat);
        (b, c + d)
    }
}

/// While a context is alive, a further initialisation is refused and leaves
/// everything as it was: no native call is owed.
pub proof fn lemma_single_context(st: RuntimeState)
    requires
        st.wf(),
        st.context_alive,
    ensures
        st.begin_init() == (st, false),
{
}

/// Of any number of initialisation attempts made one after another while no
/// context is alive, exactly one is admitted: the first.
pub proof fn lemma_init_race(st: RuntimeState, n: nat)
    requires
        st.wf(),
        !st.context_alive,
        n >= 1,
    ensures
        init_attempts(st, n).1 == 1,
        st.begin_init().1,
        init_attempts(st, n).0 == st.begin_init().0,
{
    let a = st.begin_init().0;
    lemma_refused_attempts(a, (n - 1) as nat);
}

/// Attempts made while a context is alive are all refused and change nothing.
proof fn lemma_refused_attempts(st: RuntimeState, n: nat)
    requires
        st.context_alive,
    ensures
        init_attempts(st, n) == (st, 0nat),
    decreases n,
{
    if n > 0 {
        lemma_refused_attempts(st, (n - 1) as nat);
    }
}

/// Releasing the `n` references of a context that only context handles own:
/// no release but the last owes anything, and the last owes exactly one
/// native shutdown. Releasing none owes nothing.
pub proof fn lemma_context_teardown_once(st: RuntimeState, k: nat)
    requires
        st.wf(),
        st.is_live(),
        st.direct_refs() == st.context_refs,
        k <= st.context_refs,
    ensures
        k < st.context_refs ==> release_refs(st, k).1 == Seq::<Teardown>::empty(),
        k < st.context_refs ==> release_refs(st, k).0.is_live(),
        k == st.context_refs ==> release_refs(st, k).1 == seq![Teardown::Quit],
        k == st.context_refs ==> !release_refs(st, k).0.context_alive,
        release_refs(st, 0).1 == Seq::<Teardown>::empty(),
    decreases k,
{
    if k > 0 {
        let a = st.release_ref().0;
        if st.context_refs == 1 {
            assert(release_refs(a, 0).1 =~= Seq::<Teardown>::empty());
            assert(release_refs(st, k).1 =~= seq![Teardown::Quit]);
        } else {
            lemma_context_teardown_once(a, (k - 1) as nat);
            assert(release_refs(st, k).1 =~= release_refs(a, (k - 1) as nat).1);
        }
    }
}

/// A subsystem chain opened with one reference and duplicated `n` times:
/// releasing `n` of its references owes nothing, and releasing the last one
/// owes exactly one quit of its subsystem, followed only by the context's
/// shutdown when the chain was the context's last owner.
pub proof fn lemma_chain_quits_once(st: RuntimeState, i: int, n: nat)
    requires
        st.wf(),
        0 <= i < st.slots.len(),
        st.slots[i].refs == 1,
        n < u64::MAX,
    ensures
        release_chain(dup_chain(st, i, n), i, n).1 == Seq::<Teardown>::empty(),
        ({
            let (fin, calls) = release_chain(dup_chain(st, i, n), i, n + 1);
            let flag = flag_of(st.slots[i].kind);
            &&& fin.slots[i].refs == 0
            &&& calls == seq![Teardown::QuitSubSystem(flag)] || calls == seq![
                Teardown::QuitSubSystem(flag),
                Teardown::Quit,
            ]
        }),
{
    lemma_dup_chain(st, i, n);
    lemma_release_chain(dup_chain(st, i, n), i, n + 1);
}

/// Duplicating a chain adds to its count and to nothing else.
proof fn lemma_dup_chain(st: RuntimeState, i: int, n: nat)
    requires
        0 <= i < st.slots.len(),
        st.slots[i].refs + n <= u64::MAX,
    ensures
        dup_chain(st, i, n).slots.len() == st.slots.len(),
        dup_chain(st, i, n).slots[i].refs == st.slots[i].refs + n,
        dup_chain(st, i, n).slots[i].kind == st.slots[i].kind,
        dup_chain(st, i, n).context_refs == st.context_refs,
        dup_chain(st, i, n).context_alive == st.context_alive,
        dup_chain(st, i, n).init_pending == st.init_pending,
        dup_chain(st, i, n).pump_alive == st.pump_alive,
        (st.wf() && st.slots[i].refs > 0) ==> dup_chain(st, i, n).wf(),
    decreases n,
{
    if n > 0 {
        let a = st.dup_slot(i);
        if st.wf() && st.slots[i].refs > 0 {
            crate::model::lemma_live_slots_update(st.slots, i, a.slots[i]);
        }
        lemma_dup_chain(a, i, (n - 1) as nat);
    }
}

/// Releasing all `m` references of a chain one by one: only the last owes
/// anything, and that is one quit of its subsystem, then possibly the
/// context's shutdown.
proof fn lemma_release_chain(st: RuntimeState, i: int, m: nat)
    requires
        st.wf(),
        0 <= i < st.slots.len(),
        m >= 1,
        st.slots[i].refs == m,
    ensures
        release_chain(st, i, (m - 1) as nat).1 == Seq::<Teardown>::empty(),
        ({
            let (fin, calls) = release_chain(st, i, m);
            let flag = flag_of(st.slots[i].kind);
            &&& fin.slots[i].refs == 0
            &&& calls == seq![Teardown::QuitSubSystem(flag)] || calls == seq![
                Teardown::QuitSubSystem(flag),
                Teardown::Quit,
            ]
        }),
    decreases m,
{
    crate::model::lemma_live_slot_counted(st.slots, i);
    let (a, c) = st.release_slot(i);
    crate::model::lemma_live_slots_update(st.slots, i, a.slots[i]);
    if m == 1 {
        let b = RuntimeState { slots: st.slots.update(i, a.slots[i]), ..st };
        assert(release_chain(a, i, 0).1 =~= Seq::<Teardown>::empty());
        if b.context_refs == 1 {
            assert(release_chain(st, i, 1).1 =~= seq![
                Teardown::QuitSubSystem(flag_of(st.slots[i].kind)),
                Teardown::Quit,
            ]);
        } else {
            assert(release_chain(st, i, 1).1 =~= seq![Teardown::QuitSubSystem(flag_of(st.slots[i].kind))]);
        }
    } else {
        assert(a.wf());
        lemma_release_chain(a, i, (m - 1) as nat);
        assert(release_chain(st, i, (m - 1) as nat).1 =~= release_chain(a, i, (m - 2) as nat).1);
        assert(release_chain(st, i, m).1 =~= release_chain(a, i, (m - 1) as nat).1);
    }
}

/// While an event pump is alive (or being obtained), another request is
/// refused and changes nothing; once the pump is released, a request from a
/// context handle that is still held is admitted again.
pub proof fn lemma_pump_exclusive(st: RuntimeState)
    requires
        st.wf(),
        st.pump_alive,
        !st.pump_pending,
        st.direct_refs() >= 1,
    ensures
        st.begin_pump() == (st, false),
        st.release_pump().0.begin_pump().1,
        st.release_pump().0.is_live(),
        st.release_pump().0.direct_refs() == st.direct_refs(),
{
}

/// Error text without NUL bytes survives the trip through a NUL-terminated
/// buffer: a reader of the buffer sees exactly the text.
pub proof fn lemma_error_text_round_trip(text: Seq<u8>)
    requires
        nul_free(text),
    ensures
        c_content(text.push(0u8)) == text,
    decreases text.len(),
{
    if text.len() > 0 {
        let rest = text.drop_first();
        assert(text.push(0u8).drop_first() =~= rest.push(0u8));
        lemma_error_text_round_trip(rest);
        assert(text =~= seq![text[0]].add(rest));
    } else {
        assert(text.push(0u8)[0] == 0u8);
    }
}

/// The release of one owning reference, of any kind.
pub enum Release {
    /// A context handle (or a teardown-chain reference taken from one).
    Handle,
    /// A reference to the subsystem chain recorded at this index.
    Chain(int),
    /// The event pump.
    Pump,
}

/// Whether the reference that a release gives up exists.
pub open spec fn release_enabled(st: RuntimeState, e: Release) -> bool {
    match e {
        Release::Handle => st.direct_refs() >= 1,
        Release::Chain(i) => 0 <= i < st.slots.len() && st.slots[i].refs > 0,
        Release::Pump => st.pump_alive && !st.pump_pending,
    }
}

/// What one release does to the bookkeeping and which teardown calls it owes.
pub open spec fn release_step(st: RuntimeState, e: Release) -> (RuntimeState, Seq<Teardown>) {
    match e {
        Release::Handle => st.release_ref(),
        Release::Chain(i) => st.release_slot(i),
        Release::Pump => st.release_pump(),
    }
}

/// A run of releases: final state, teardown calls owed in order, and whether
/// every release gave up a reference that existed.
pub open spec fn release_run(st: RuntimeState, evs: Seq<Release>) -> (RuntimeState, Seq<Teardown>, bool)
    decreases evs.len(),
{
    if evs.len() == 0 {
        (st, Seq::empty(), true)
    } else {
        let (a, c) = release_step(st, evs[0]);
        let (b, d, ok) = release_run(a, evs.drop_first());
        (b, c + d, release_enabled(st, evs[0]) && ok)
    }
}

/// Sum of the references of all subsystem chains.
pub open spec fn chain_refs(s: Seq<Slot>) -> nat
    decreases s.len(),
{
    if s.len() == 0 {
        0
    } else {
        chain_refs(s.drop_last()) + s.last().refs as nat
    }
}

/// Number of owning references outstanding: context handles, references to
/// subsystem chains, and the event pump.
pub open spec fn outstanding(st: RuntimeState) -> int {
    st.direct_refs() + chain_refs(st.slots) + st.pump_hold()
}

/// Number of native shutdown calls among teardown calls.
pub open spec fn quit_count(c: Seq<Teardown>) -> nat
    decreases c.len(),
{
    if c.len() == 0 {
        0
    } else {
        quit_count(c.drop_first()) + if c[0] == Teardown::Quit { 1nat } else { 0nat }
    }
}

proof fn lemma_quit_count_concat(c: Seq<Teardown>, d: Seq<Teardown>)
    ensures
        quit_count(c + d) == quit_count(c) + quit_count(d),
    decreases c.len(),
{
    if c.len() > 0 {
        assert((c + d).drop_first() =~= c.drop_first() + d);
        lemma_quit_count_concat(c.drop_first(), d);
    } else {
        assert(c + d =~= d);
    }
}

proof fn lemma_chain_refs_update(s: Seq<Slot>, i: int, v: Slot)
    requires
        0 <= i < s.len(),
    ensures
        chain_refs(s.update(i, v)) == chain_refs(s) - s[i].refs + v.refs,
    decreases s.len(),
{
    if i == s.len() - 1 {
        assert(s.update(i, v).drop_last() =~= s.drop_last());
    } else {
        lemma_chain_refs_update(s.drop_last(), i, v);
        assert(s.update(i, v).drop_last() =~= s.drop_last().update(i, v));
    }
}

proof fn lemma_chain_refs_cover_live(s: Seq<Slot>)
    ensures
        chain_refs(s) >= live_slots(s),
        live_slots(s) == 0 ==> chain_refs(s) == 0,
    decreases s.len(),
{
    if s.len() > 0 {
        lemma_chain_refs_cover_live(s.drop_last());
    }
}

/// One release gives up exactly one outstanding reference, keeps the
/// bookkeeping consistent, and owes the shutdown exactly when it gives up the
/// last reference.
proof fn lemma_release_step(st: RuntimeState, e: Release)
    requires
        st.wf(),
        st.is_live(),
        release_enabled(st, e),
    ensures
        ({
            let (a, c) = release_step(st, e);
            &&& a.wf()
            &&& outstanding(a) == outstanding(st) - 1
            &&& outstanding(a) == 0 ==> (quit_count(c) == 1 && c.last() == Teardown::Quit
                && !a.context_alive)
            &&& outstanding(a) != 0 ==> (quit_count(c) == 0 && a.is_live())
        }),
{
    reveal_with_fuel(quit_count, 2);
    lemma_chain_refs_cover_live(st.slots);
    let (a, c) = release_step(st, e);
    match e {
        Release::Handle => {
            lemma_chain_refs_cover_live(a.slots);
            if a.context_refs == 0 {
                assert(c.drop_first() =~= Seq::<Teardown>::empty());
            }
        },
        Release::Chain(i) => {
            lemma_live_slot_counted(st.slots, i);
            let s = st.slots[i];
            let v = Slot { refs: (s.refs - 1) as u64, ..s };
            let b = RuntimeState { slots: st.slots.update(i, v), ..st };
            lemma_live_slots_update(st.slots, i, v);
            lemma_chain_refs_update(st.slots, i, v);
            lemma_chain_refs_cover_live(b.slots);
            if s.refs == 1 {
                let (fin, d) = b.release_ref();
                assert(c == seq![Teardown::QuitSubSystem(crate::subsystem::flag_of(s.kind))] + d);
                lemma_quit_count_concat(seq![Teardown::QuitSubSystem(crate::subsystem::flag_of(s.kind))], d);
                assert(seq![Teardown::QuitSubSystem(crate::subsystem::flag_of(s.kind))].drop_first() =~= Seq::<Teardown>::empty());
                if fin.context_refs == 0 {
                    assert(d.drop_first() =~= Seq::<Teardown>::empty());
                }
            }
        },
        Release::Pump => {
            let b = RuntimeState { pump_alive: false, ..st };
            let (fin, d) = b.release_ref();
            lemma_quit_count_concat(seq![Teardown::QuitSubSystem(crate::subsystem::flag_of(crate::subsystem::Subsystem::Events))], d);
            assert(seq![Teardown::QuitSubSystem(crate::subsystem::flag_of(crate::subsystem::Subsystem::Events))].drop_first() =~= Seq::<Teardown>::empty());
            if fin.context_refs == 0 {
                assert(d.drop_first() =~= Seq::<Teardown>::empty());
            }
        },
    }
}

/// Releasing every owning reference of a live context exactly once, in any
/// order and of any kind (context handles, subsystem chain references, the
/// event pump), owes exactly one native shutdown, and it is the very last
/// teardown call: nothing outlives the context.
pub proof fn lemma_shutdown_exactly_once(st: RuntimeState, evs: Seq<Release>)
    requires
        st.wf(),
        st.is_live(),
        release_run(st, evs).2,
        evs.len() == outstanding(st),
    ensures
        quit_count(release_run(st, evs).1) == 1,
        release_run(st, evs).1.last() == Teardown::Quit,
        !release_run(st, evs).0.context_alive,
    decreases evs.len(),
{
    lemma_chain_refs_cover_live(st.slots);
    let e = evs[0];
    let (a, c) = release_step(st, e);
    lemma_release_step(st, e);
    let rest = evs.drop_first();
    let (b, d, ok) = release_run(a, rest);
    lemma_quit_count_concat(c, d);
    if outstanding(a) == 0 {
        assert(d =~= Seq::<Teardown>::empty());
        assert(c + d =~= c);
    } else {
        lemma_shutdown_exactly_once(a, rest);
        assert((c + d).last() == d.last());
    }
}

} // verus!
