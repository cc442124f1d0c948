//! The order of the events that a window's drop target reports, over any
//! sequence of the calls that GTK makes to it, interleaved with whatever other
//! windows, sent drags and the application do to the shared drag-and-drop
//! state.

use vstd::prelude::*;

use crate::dnd::action::DragAction;
use crate::dnd::drag_state::WindowDragStateView;
use crate::dnd::events::{
    drag_dropped_post, drag_left_post, drag_moved_post, enter_data_arrived_post, DragEvent,
};
use crate::dnd::offer::{
    lemma_raw_id_after_add, lemma_raw_ids_distinct, raw_id_after, DataTransferId, DndStateView,
    WindowId,
};

verus! {

/// One call into a window's drop target, or a change made elsewhere.
pub enum DropTargetCall<P, Pos> {
    /// A drag entered at `position` (`WindowDragState::start`).
    Enter { position: Pos },
    /// The file list of the drag numbered `serial` arrived (`enter_data_arrived`).
    FileListArrived {
        serial: u64,
        paths: Option<P>,
        entered_at: Pos,
        window_id: WindowId,
        source_actions: DragAction,
    },
    /// The drag moved (`drag_moved`).
    Motion { position: Pos },
    /// The drag left (`drag_left`).
    Leave,
    /// The drag was dropped (`drag_dropped`).
    Drop { paths: Option<P>, position: Pos, window_id: WindowId, source_actions: DragAction },
    /// Other windows, sent drags or the application changed the shared state
    /// and handed out `handed_out` transfer numbers; this window's drag state
    /// is untouched and it reports nothing.
    Elsewhere { handed_out: u64 },
}

/// What `call` does, per the contracts of the functions it stands for: from
/// the window's drag state `state` and the shared state `dnd` to `after` and
/// `dnd_after`, reporting `events` for the window.
pub open spec fn call_post<P, H, Pos>(
    call: DropTargetCall<P, Pos>,
    state: WindowDragStateView<Pos>,
    dnd: DndStateView<P, H>,
    after: WindowDragStateView<Pos>,
    dnd_after: DndStateView<P, H>,
    events: Seq<DragEvent<Pos>>,
) -> bool {
    match call {
        DropTargetCall::Enter { position } => {
            &&& after == state.after_start(position)
            &&& dnd_after == dnd
            &&& events == Seq::<DragEvent<Pos>>::empty()
        },
        DropTargetCall::FileListArrived { serial, paths, entered_at, window_id, source_actions } => {
            enter_data_arrived_post(
                state,
                dnd,
                serial,
                paths,
                entered_at,
                window_id,
                source_actions,
                after,
                dnd_after,
                events,
            )
        },
        DropTargetCall::Motion { position } => {
            &&& dnd_after == dnd
            &&& drag_moved_post(state, dnd, position, after, events)
        },
        DropTargetCall::Leave => drag_left_post(state, dnd, after, dnd_after, events),
        DropTargetCall::Drop { paths, position, window_id, source_actions } => drag_dropped_post(
            state,
            dnd,
            paths,
            position,
            window_id,
            source_actions,
            after,
            dnd_after,
            events,
        ),
        DropTargetCall::Elsewhere { handed_out } => {
            &&& after == state
            &&& events == Seq::<DragEvent<Pos>>::empty()
            &&& dnd_after.next_transfer_id == raw_id_after(dnd.next_transfer_id, handed_out as nat)
        },
    }
}

/// The most transfer numbers that `call` hands out.
pub open spec fn call_budget<P, Pos>(call: DropTargetCall<P, Pos>) -> nat {
    match call {
        DropTargetCall::Elsewhere { handed_out } => handed_out as nat,
        _ => 1,
    }
}

/// The most transfer numbers that `calls` hand out.
pub open spec fn calls_budget<P, Pos>(calls: Seq<DropTargetCall<P, Pos>>) -> nat
    decreases calls.len(),
{
    if calls.len() == 0 {
        0
    } else {
        calls_budget(calls.drop_last()) + call_budget(calls.last())
    }
}

/// The events of a run, call after call.
pub open spec fn all_events<Pos>(chunks: Seq<Seq<DragEvent<Pos>>>) -> Seq<DragEvent<Pos>>
    decreases chunks.len(),
{
    if chunks.len() == 0 {
        Seq::empty()
    } else {
        all_events(chunks.drop_last()) + chunks.last()
    }
}

/// The transfer that an event is about.
pub open spec fn event_id<Pos>(event: DragEvent<Pos>) -> DataTransferId {
    match event {
        DragEvent::DragEntered { id, .. } => id,
        DragEvent::DragPosition { id, .. } => id,
        DragEvent::DragLeft { id } => id,
        DragEvent::DragDropped { id, .. } => id,
        DragEvent::OutgoingDragDropped { id, .. } => id,
        DragEvent::OutgoingDragCanceled { id } => id,
    }
}

/// The event reports that a drag entered.
pub open spec fn is_entered<Pos>(event: DragEvent<Pos>) -> bool {
    event is DragEntered
}

/// The event ends a transfer: the drag left or was dropped.
pub open spec fn ends_transfer<Pos>(event: DragEvent<Pos>) -> bool {
    event is DragLeft || event is DragDropped
}

/// No transfer is reported to have entered twice.
pub open spec fn entered_once<Pos>(events: Seq<DragEvent<Pos>>) -> bool {
    forall|i: int, j: int|
        #![trigger events[i], events[j]]
        0 <= i < j < events.len() && is_entered(events[i]) && is_entered(events[j]) ==> event_id(
            events[i],
        ) != event_id(events[j])
}

/// An event at index `j` comes after the report that its transfer entered.
pub open spec fn entered_before<Pos>(events: Seq<DragEvent<Pos>>, j: int) -> bool {
    exists|i: int|
        #![trigger events[i]]
        0 <= i < j && is_entered(events[i]) && event_id(events[i]) == event_id(events[j])
}

/// Every other event comes after the report that its transfer entered.
pub open spec fn follows_entered<Pos>(events: Seq<DragEvent<Pos>>) -> bool {
    forall|j: int| 0 <= j < events.len() && !is_entered(#[trigger] events[j]) ==> entered_before(events, j)
}

/// Once a transfer has ended, no later event is about it.
pub open spec fn nothing_after_end<Pos>(events: Seq<DragEvent<Pos>>) -> bool {
    forall|i: int, j: int|
        #![trigger events[i], events[j]]
        0 <= i < j < events.len() && ends_transfer(events[i]) ==> event_id(events[j]) != event_id(
            events[i],
        )
}

/// The events of a drop target come in order: each transfer is reported to
/// enter exactly once, before any other event about it, and ends at most
/// once, with nothing about it afterwards.
pub open spec fn events_well_ordered<Pos>(events: Seq<DragEvent<Pos>>) -> bool {
    &&& entered_once(events)
    &&& follows_entered(events)
    &&& nothing_after_end(events)
}

/// `id` is one of the first `h` numbers handed out from `start` on.
spec fn is_issued(id: DataTransferId, start: i64, h: nat) -> bool {
    exists|a: nat| a < h && id.raw == #[trigger] raw_id_after(start, a)
}

/// The events report that transfer `id` entered.
spec fn has_entered<Pos>(events: Seq<DragEvent<Pos>>, id: DataTransferId) -> bool {
    exists|i: int| 0 <= i < events.len() && is_entered(#[trigger] events[i]) && event_id(events[i]) == id
}

/// The events report that transfer `id` ended.
spec fn has_ended<Pos>(events: Seq<DragEvent<Pos>>, id: DataTransferId) -> bool {
    exists|i: int| 0 <= i < events.len() && ends_transfer(#[trigger] events[i]) && event_id(events[i]) == id
}

/// What holds after each call of a run that started at transfer number
/// `start` and has handed out `h` numbers.
spec fn run_invariant<P, H, Pos>(
    state: WindowDragStateView<Pos>,
    dnd: DndStateView<P, H>,
    events: Seq<DragEvent<Pos>>,
    start: i64,
    h: nat,
) -> bool {
    &&& h < 0x1_0000_0000_0000_0000
    &&& dnd.next_transfer_id == raw_id_after(start, h)
    &&& forall|i: int| 0 <= i < events.len() ==> is_issued(event_id(#[trigger] events[i]), start, h)
    &&& events_well_ordered(events)
    &&& state.transfer_id matches Some(t) ==> {
        &&& is_issued(t, start, h)
        &&& has_entered(events, t)
        &&& !has_ended(events, t)
    }
}

/// Appending an event keeps the order, if an entering transfer is new, any
/// other event's transfer has entered, and its transfer has not ended.
proof fn lemma_push_event<Pos>(events: Seq<DragEvent<Pos>>, e: DragEvent<Pos>)
    requires
        events_well_ordered(events),
        is_entered(e) ==> forall|i: int| 0 <= i < events.len() ==> event_id(#[trigger] events[i]) != event_id(e),
        !is_entered(e) ==> has_entered(events, event_id(e)),
        !has_ended(events, event_id(e)),
    ensures
        events_well_ordered(events.push(e)),
{
    let all = events.push(e);
    let n = events.len() as int;
    assert(all[n] == e);
    assert forall|i: int, j: int|
        #![trigger all[i], all[j]]
        0 <= i < j < all.len() && is_entered(all[i]) && is_entered(all[j]) implies event_id(all[i])
        != event_id(all[j]) by {
        assert(all[i] == events[i]);
        if j < n {
            assert(all[j] == events[j]);
        }
    }
    assert forall|j: int| 0 <= j < all.len() && !is_entered(#[trigger] all[j]) implies entered_before(
        all,
        j,
    ) by {
        if j < n {
            assert(all[j] == events[j]);
            assert(entered_before(events, j));
            let i = choose|i: int|
                #![trigger events[i]]
                0 <= i < j && is_entered(events[i]) && event_id(events[i]) == event_id(events[j]);
            assert(all[i] == events[i]);
        } else {
            let i = choose|i: int|
                0 <= i < events.len() && is_entered(#[trigger] events[i]) && event_id(events[i])
                    == event_id(e);
            assert(all[i] == events[i]);
        }
    }
    assert forall|i: int, j: int|
        #![trigger all[i], all[j]]
        0 <= i < j < all.len() && ends_transfer(all[i]) implies event_id(all[j]) != event_id(
            all[i],
        ) by {
        assert(all[i] == events[i]);
        if j < n {
            assert(all[j] == events[j]);
        } else {
            assert(ends_transfer(events[i]));
        }
    }
}

/// A number issued among the first `h` is issued among any more.
proof fn lemma_issued_grows(id: DataTransferId, start: i64, h: nat, h2: nat)
    requires
        is_issued(id, start, h),
        h <= h2,
    ensures
        is_issued(id, start, h2),
{
    let a = choose|a: nat| a < h && id.raw == #[trigger] raw_id_after(start, a);
    assert(a < h2 && id.raw == raw_id_after(start, a));
}

/// The next number to hand out is none of the issued ones.
proof fn lemma_next_is_fresh<Pos>(events: Seq<DragEvent<Pos>>, start: i64, h: nat)
    requires
        h < 0x1_0000_0000_0000_0000,
        forall|i: int| 0 <= i < events.len() ==> is_issued(event_id(#[trigger] events[i]), start, h),
    ensures
        forall|i: int|
            0 <= i < events.len() ==> event_id(#[trigger] events[i]) != (DataTransferId {
                raw: raw_id_after(start, h),
            }),
{
    assert forall|i: int| 0 <= i < events.len() implies event_id(#[trigger] events[i])
        != (DataTransferId { raw: raw_id_after(start, h) }) by {
        assert(is_issued(event_id(events[i]), start, h));
        let a = choose|a: nat| a < h && event_id(events[i]).raw == #[trigger] raw_id_after(start, a);
        lemma_raw_ids_distinct(start, a, h);
    }
}

/// One call keeps the invariant of a run.
proof fn lemma_call_keeps_invariant<P, H, Pos>(
    call: DropTargetCall<P, Pos>,
    state: WindowDragStateView<Pos>,
    dnd: DndStateView<P, H>,
    after: WindowDragStateView<Pos>,
    dnd_after: DndStateView<P, H>,
    chunk: Seq<DragEvent<Pos>>,
    events: Seq<DragEvent<Pos>>,
    start: i64,
    h: nat,
) -> (h2: nat)
    requires
        run_invariant(state, dnd, events, start, h),
        call_post(call, state, dnd, after, dnd_after, chunk),
        h + call_budget(call) < 0x1_0000_0000_0000_0000,
    ensures
        run_invariant(after, dnd_after, events + chunk, start, h2),
        h2 <= h + call_budget(call),
{
    let next = DataTransferId { raw: raw_id_after(start, h) };
    if chunk.len() == 0 {
        assert(events + chunk =~= events);
    }
    match call {
        DropTargetCall::Elsewhere { handed_out } => {
            let h2 = h + handed_out as nat;
            lemma_raw_id_after_add(start, h, handed_out as nat);
            assert forall|i: int| 0 <= i < events.len() implies is_issued(
                event_id(#[trigger] events[i]),
                start,
                h2,
            ) by {
                lemma_issued_grows(event_id(events[i]), start, h, h2);
            }
            if let Some(t) = state.transfer_id {
                lemma_issued_grows(t, start, h, h2);
            }
            h2
        },
        DropTargetCall::Enter { .. } => h,
        DropTargetCall::Motion { .. } => {
            if let Some(t) = state.transfer_id {
                let e = chunk[0];
                assert(events + chunk =~= events.push(e));
                lemma_push_event(events, e);
                let all = events.push(e);
                let w = choose|i: int|
                    0 <= i < events.len() && is_entered(#[trigger] events[i]) && event_id(events[i]) == t;
                assert(all[w] == events[w]);
                assert(!has_ended(all, t)) by {
                    if has_ended(all, t) {
                        let k = choose|i: int|
                            0 <= i < all.len() && ends_transfer(#[trigger] all[i]) && event_id(all[i])
                                == t;
                        assert(k < events.len());
                        assert(all[k] == events[k]);
                    }
                }
                assert forall|i: int| 0 <= i < all.len() implies is_issued(
                    event_id(#[trigger] all[i]),
                    start,
                    h,
                ) by {
                    if i < events.len() {
                        assert(all[i] == events[i]);
                    }
                }
            }
            h
        },
        DropTargetCall::Leave => {
            if let Some(t) = state.transfer_id {
                let e = chunk[0];
                assert(events + chunk =~= events.push(e));
                lemma_push_event(events, e);
                let all = events.push(e);
                assert forall|i: int| 0 <= i < all.len() implies is_issued(
                    event_id(#[trigger] all[i]),
                    start,
                    h,
                ) by {
                    if i < events.len() {
                        assert(all[i] == events[i]);
                    }
                }
            }
            h
        },
        DropTargetCall::FileListArrived { serial, paths, .. } => {
            if paths is Some && state.is_pending_enter(serial) {
                let e = chunk[0];
                assert(events + chunk =~= events.push(e));
                lemma_next_is_fresh(events, start, h);
                assert(!has_ended(events, next));
                lemma_push_event(events, e);
                let all = events.push(e);
                let h2 = h + 1;
                assert(is_issued(next, start, h2)) by {
                    assert(h < h2 && next.raw == raw_id_after(start, h));
                }
                assert forall|i: int| 0 <= i < all.len() implies is_issued(
                    event_id(#[trigger] all[i]),
                    start,
                    h2,
                ) by {
                    if i < events.len() {
                        assert(all[i] == events[i]);
                        lemma_issued_grows(event_id(events[i]), start, h, h2);
                    }
                }
                assert(all[events.len() as int] == e);
                assert(has_entered(all, next));
                assert(!has_ended(all, next)) by {
                    if has_ended(all, next) {
                        let k = choose|i: int|
                            0 <= i < all.len() && ends_transfer(#[trigger] all[i]) && event_id(all[i])
                                == next;
                        assert(k < events.len());
                        assert(all[k] == events[k]);
                    }
                }
                h2
            } else {
                h
            }
        },
        DropTargetCall::Drop { paths, position, .. } => {
            if paths is Some {
                match state.transfer_id {
                    Some(t) => {
                        let e = chunk[0];
                        assert(events + chunk =~= events.push(e));
                        lemma_push_event(events, e);
                        let all = events.push(e);
                        assert forall|i: int| 0 <= i < all.len() implies is_issued(
                            event_id(#[trigger] all[i]),
                            start,
                            h,
                        ) by {
                            if i < events.len() {
                                assert(all[i] == events[i]);
                            }
                        }
                        h
                    },
                    None => {
                        let entered = chunk[0];
                        let left = chunk[1];
                        assert(events + chunk =~= events.push(entered).push(left));
                        lemma_next_is_fresh(events, start, h);
                        assert(!has_ended(events, next));
                        lemma_push_event(events, entered);
                        let mid = events.push(entered);
                        assert(mid[events.len() as int] == entered);
                        assert(has_entered(mid, next));
                        assert(!has_ended(mid, next)) by {
                            if has_ended(mid, next) {
                                let k = choose|i: int|
                                    0 <= i < mid.len() && ends_transfer(#[trigger] mid[i])
                                        && event_id(mid[i]) == next;
                                assert(k < events.len());
                                assert(mid[k] == events[k]);
                            }
                        }
                        lemma_push_event(mid, left);
                        let all = mid.push(left);
                        let h2 = h + 1;
                        assert forall|i: int| 0 <= i < all.len() implies is_issued(
                            event_id(#[trigger] all[i]),
                            start,
                            h2,
                        ) by {
                            if i < events.len() {
                                assert(all[i] == events[i]);
                                lemma_issued_grows(event_id(events[i]), start, h, h2);
                            } else {
                                assert(h < h2 && next.raw == raw_id_after(start, h));
                            }
                        }
                        h2
                    },
                }
            } else {
                h
            }
        },
    }
}

/// The budget of a prefix of the calls is at most that of all of them, and
/// grows by the budget of each call.
proof fn lemma_budget_prefix<P, Pos>(calls: Seq<DropTargetCall<P, Pos>>, k: int)
    requires
        0 <= k <= calls.len(),
    ensures
        calls_budget(calls.subrange(0, k)) <= calls_budget(calls),
    decreases calls.len(),
{
    if k < calls.len() {
        lemma_budget_prefix(calls.drop_last(), k);
        assert(calls.drop_last().subrange(0, k) =~= calls.subrange(0, k));
    } else {
        assert(calls.subrange(0, k) =~= calls);
    }
}

/// The invariant of a run holds after its first `k` calls.
proof fn lemma_run_prefix<P, H, Pos>(
    calls: Seq<DropTargetCall<P, Pos>>,
    states: Seq<WindowDragStateView<Pos>>,
    dnds: Seq<DndStateView<P, H>>,
    chunks: Seq<Seq<DragEvent<Pos>>>,
    k: int,
) -> (h: nat)
    requires
        states.len() == calls.len() + 1,
        dnds.len() == calls.len() + 1,
        chunks.len() == calls.len(),
        states[0].transfer_id is None,
        calls_budget(calls) < 0x1_0000_0000_0000_0000,
        forall|c: int|
            #![trigger calls[c]]
            0 <= c < calls.len() ==> call_post(
                calls[c],
                states[c],
                dnds[c],
                states[c + 1],
                dnds[c + 1],
                chunks[c],
            ),
        0 <= k <= calls.len(),
    ensures
        run_invariant(
            states[k],
            dnds[k],
            all_events(chunks.subrange(0, k)),
            dnds[0].next_transfer_id,
            h,
        ),
        h <= calls_budget(calls.subrange(0, k)),
    decreases k,
{
    let start = dnds[0].next_transfer_id;
    if k == 0 {
        assert(chunks.subrange(0, 0) =~= Seq::<Seq<DragEvent<Pos>>>::empty());
        assert(all_events(chunks.subrange(0, 0)) =~= Seq::<DragEvent<Pos>>::empty());
        0
    } else {
        let h0 = lemma_run_prefix(calls, states, dnds, chunks, k - 1);
        assert(calls.subrange(0, k).drop_last() =~= calls.subrange(0, k - 1));
        assert(chunks.subrange(0, k).drop_last() =~= chunks.subrange(0, k - 1));
        lemma_budget_prefix(calls, k);
        let c = calls[k - 1];
        assert(call_post(c, states[k - 1], dnds[k - 1], states[k], dnds[k], chunks[k - 1]));
        lemma_call_keeps_invariant(
            c,
            states[k - 1],
            dnds[k - 1],
            states[k],
            dnds[k],
            chunks[k - 1],
            all_events(chunks.subrange(0, k - 1)),
            start,
            h0,
        )
    }
}

/// Over any sequence of calls to a window's drop target, in whatever order GTK
/// makes them and interleaved with changes made elsewhere, the events that the
/// window receives come in order: each transfer is reported to enter exactly
/// once, before any position, drop or leave event about it, and it ends (is
/// dropped or leaves) at most once, with nothing reported about it afterwards.
/// This holds as long as fewer than 2^64 transfer numbers are handed out in
/// the run, after which the numbers come round again.
pub proof fn lemma_drop_target_events_are_well_ordered<P, H, Pos>(
    calls: Seq<DropTargetCall<P, Pos>>,
    states: Seq<WindowDragStateView<Pos>>,
    dnds: Seq<DndStateView<P, H>>,
    chunks: Seq<Seq<DragEvent<Pos>>>,
)
    requires
        states.len() == calls.len() + 1,
        dnds.len() == calls.len() + 1,
        chunks.len() == calls.len(),
        states[0].transfer_id is None,
        calls_budget(calls) < 0x1_0000_0000_0000_0000,
        forall|c: int|
            #![trigger calls[c]]
            0 <= c < calls.len() ==> call_post(
                calls[c],
                states[c],
                dnds[c],
                states[c + 1],
                dnds[c + 1],
                chunks[c],
            ),
    ensures
        events_well_ordered(all_events(chunks)),
{
    let n = calls.len() as int;
    lemma_run_prefix(calls, states, dnds, chunks, n);
    assert(chunks.subrange(0, n) =~= chunks);
}

} // verus!
