//! The decisions of drag and drop: what a window's drop target does when a
//! drag enters, moves, leaves or drops, and what a sent drag reports when it
//! ends. The platform calls these and delivers the events that they return.

use vstd::prelude::*;

use crate::dnd::action::{action_flag, dnd_action_gdk_to_winit, preferred_action, DndAction, DragAction};
use crate::dnd::data::TypeHint;
use crate::dnd::drag_state::{WindowDragState, WindowDragStateView};
use crate::dnd::offer::{
    is_first_offered, lemma_proposed_action_is_first_allowed, next_raw_id, proposed_action_of,
    receive_drag_without, selected_flag_of,
    send_drag_without, DataOffer, DataOfferView, DataTransferId, DndState, DndStateView,
    WindowId,
};

verus! {

/// An event of drag and drop, reported to the application for one window.
#[derive(Clone, Copy, Debug, PartialEq, Eq)]
#[allow(inconsistent_fields)]
pub enum DragEvent<Pos> {
    /// A drag of files entered the window.
    DragEntered { id: DataTransferId, position: Option<Pos> },
    /// The drag moved over the window.
    DragPosition { id: DataTransferId, position: Pos, proposed_action: Option<DndAction> },
    /// The drag left the window, or was dropped and refused.
    DragLeft { id: DataTransferId },
    /// The drag was dropped on the window and accepted.
    DragDropped { id: DataTransferId, proposed_action: Option<DndAction> },
    /// A drag that the application sent was dropped.
    OutgoingDragDropped { id: DataTransferId, action: Option<DndAction> },
    /// A drag that the application sent was canceled.
    OutgoingDragCanceled { id: DataTransferId },
}

/// `paths`, unless there are none.
pub fn non_empty_paths<T>(paths: Vec<T>) -> (found: Option<Vec<T>>)
    ensures
        found is Some <==> paths@.len() > 0,
        found matches Some(kept) ==> kept@ == paths@,
{
    if paths.len() > 0 {
        Some(paths)
    } else {
        None
    }
}

/// The offer that a drop target makes of a drag of files that becomes
/// transfer `id`.
pub open spec fn is_new_file_offer<P>(
    offer: DataOfferView<P>,
    id: DataTransferId,
    window_id: WindowId,
    paths: P,
    source_actions: DragAction,
) -> bool {
    &&& offer.transfer_id == id
    &&& offer.window_id == window_id
    &&& offer.type_hint == TypeHint::UriList
    &&& offer.paths == paths
    &&& offer.source_actions == source_actions
    &&& offer.valid_actions == Seq::<DndAction>::empty()
}

/// The drop target registers a new file drag as the window's received drag,
/// under the next transfer number.
pub open spec fn registers_new_offer<P, H>(
    before: DndStateView<P, H>,
    after: DndStateView<P, H>,
    window_id: WindowId,
    paths: P,
    source_actions: DragAction,
) -> bool {
    &&& after.next_transfer_id == next_raw_id(before.next_transfer_id)
    &&& after.send_drag == before.send_drag
    &&& after.receive_drag matches Some(offer) && is_new_file_offer(
        offer@,
        DataTransferId { raw: before.next_transfer_id },
        window_id,
        paths,
        source_actions,
    )
}

/// The action that the received drag, if it is the drag `id`, proposes.
pub open spec fn proposed_for<P>(receive_drag: Option<DataOffer<P>>, id: DataTransferId) -> Option<
    DndAction,
> {
    match receive_drag {
        Some(offer) => if offer@.transfer_id == id {
            proposed_action_of(offer@)
        } else {
            None
        },
        None => None,
    }
}

/// The GDK flag of the action that the received drag, if it is the drag `id`,
/// proposes.
pub open spec fn selected_for<P>(receive_drag: Option<DataOffer<P>>, id: DataTransferId) -> Option<
    DragAction,
> {
    match receive_drag {
        Some(offer) => if offer@.transfer_id == id {
            selected_flag_of(offer@)
        } else {
            None
        },
        None => None,
    }
}

/// The events of a call that reports at most one, as a sequence.
pub open spec fn optional_event<Pos>(event: Option<DragEvent<Pos>>) -> Seq<DragEvent<Pos>> {
    match event {
        Some(e) => seq![e],
        None => Seq::empty(),
    }
}

/// Where a drag is, for a window drag state: its latest position while a drag
/// is over the window, else `fallback`.
pub open spec fn latest_position<Pos>(state: WindowDragStateView<Pos>, fallback: Pos) -> Pos {
    if state.active {
        match state.position {
            Some(latest) => latest,
            None => fallback,
        }
    } else {
        fallback
    }
}

/// What the file list `paths` of the drag numbered `serial` does to the
/// window's drag state `state` and the drag-and-drop state `dnd`, giving
/// `after`, `dnd_after` and the events `events`.
pub open spec fn enter_data_arrived_post<P, H, Pos>(
    state: WindowDragStateView<Pos>,
    dnd: DndStateView<P, H>,
    serial: u64,
    paths: Option<P>,
    entered_at: Pos,
    window_id: WindowId,
    source_actions: DragAction,
    after: WindowDragStateView<Pos>,
    dnd_after: DndStateView<P, H>,
    events: Seq<DragEvent<Pos>>,
) -> bool {
    match paths {
        None => {
            &&& events == Seq::<DragEvent<Pos>>::empty()
            &&& dnd_after == dnd
            &&& after == (if state.is_pending_enter(serial) {
                state.after_reset()
            } else {
                state
            })
        },
        Some(p) => if state.is_pending_enter(serial) {
            let id = DataTransferId { raw: dnd.next_transfer_id };
            &&& registers_new_offer(dnd, dnd_after, window_id, p, source_actions)
            &&& after == (WindowDragStateView { transfer_id: Some(id), ..state })
            &&& events == seq![
                DragEvent::DragEntered { id, position: Some(latest_position(state, entered_at)) },
            ]
        } else {
            &&& events == Seq::<DragEvent<Pos>>::empty()
            &&& dnd_after == dnd
            &&& after == state
        },
    }
}

/// What a move of the drag to `position` does to the window's drag state and
/// which events it reports.
pub open spec fn drag_moved_post<P, H, Pos>(
    state: WindowDragStateView<Pos>,
    dnd: DndStateView<P, H>,
    position: Pos,
    after: WindowDragStateView<Pos>,
    events: Seq<DragEvent<Pos>>,
) -> bool {
    &&& after == (if state.active {
        WindowDragStateView { position: Some(position), ..state }
    } else {
        state
    })
    &&& events == match state.transfer_id {
        Some(id) => seq![
            DragEvent::DragPosition {
                id,
                position,
                proposed_action: proposed_for(dnd.receive_drag, id),
            },
        ],
        None => Seq::<DragEvent<Pos>>::empty(),
    }
}

/// What the drag leaving the window does, and which events it reports.
pub open spec fn drag_left_post<P, H, Pos>(
    state: WindowDragStateView<Pos>,
    dnd: DndStateView<P, H>,
    after: WindowDragStateView<Pos>,
    dnd_after: DndStateView<P, H>,
    events: Seq<DragEvent<Pos>>,
) -> bool {
    &&& after == state.after_reset()
    &&& match state.transfer_id {
        Some(id) => {
            &&& events == seq![DragEvent::<Pos>::DragLeft { id }]
            &&& dnd_after == (DndStateView {
                receive_drag: receive_drag_without(dnd.receive_drag, id),
                ..dnd
            })
        },
        None => events == Seq::<DragEvent<Pos>>::empty() && dnd_after == dnd,
    }
}

/// The drop of a drag carrying `paths` at `position` is accepted: the drag
/// had become a transfer whose offer proposes an action.
pub open spec fn drop_accepted<P, H, Pos>(
    state: WindowDragStateView<Pos>,
    dnd: DndStateView<P, H>,
    paths: Option<P>,
) -> bool {
    &&& paths is Some
    &&& state.transfer_id matches Some(id) && proposed_for(dnd.receive_drag, id) is Some
}

/// What dropping a drag carrying `paths` at `position` does, and which events
/// it reports.
pub open spec fn drag_dropped_post<P, H, Pos>(
    state: WindowDragStateView<Pos>,
    dnd: DndStateView<P, H>,
    paths: Option<P>,
    position: Pos,
    window_id: WindowId,
    source_actions: DragAction,
    after: WindowDragStateView<Pos>,
    dnd_after: DndStateView<P, H>,
    events: Seq<DragEvent<Pos>>,
) -> bool {
    &&& after == state.after_reset()
    &&& match paths {
        None => {
            &&& events == Seq::<DragEvent<Pos>>::empty()
            &&& dnd_after == match state.transfer_id {
                Some(id) => DndStateView {
                    receive_drag: receive_drag_without(dnd.receive_drag, id),
                    ..dnd
                },
                None => dnd,
            }
        },
        Some(p) => match state.transfer_id {
            Some(id) => {
                &&& dnd_after.next_transfer_id == dnd.next_transfer_id
                &&& dnd_after.send_drag == dnd.send_drag
                &&& match proposed_for(dnd.receive_drag, id) {
                    Some(action) => {
                        &&& events == seq![
                            DragEvent::<Pos>::DragDropped { id, proposed_action: Some(action) },
                        ]
                        &&& dnd_after.receive_drag == dnd.receive_drag
                    },
                    None => {
                        &&& events == seq![DragEvent::<Pos>::DragLeft { id }]
                        &&& dnd_after.receive_drag == receive_drag_without(dnd.receive_drag, id)
                    },
                }
            },
            None => {
                let id = DataTransferId { raw: dnd.next_transfer_id };
                &&& dnd_after.next_transfer_id == next_raw_id(dnd.next_transfer_id)
                &&& dnd_after.send_drag == dnd.send_drag
                &&& dnd_after.receive_drag is None
                &&& events == seq![
                    DragEvent::DragEntered { id, position: Some(position) },
                    DragEvent::DragLeft { id },
                ]
            },
        },
    }
}

/// The first half of `enter_data_arrived`: the file list `paths` of the drag
/// numbered `serial` has arrived. Returns the files if that drag is still over
/// the window and waits for them; missing data ends the drag if it still
/// waits, and stale data is dropped.
pub fn pending_enter_paths<P, Pos: Copy>(
    drag_state: &mut WindowDragState<Pos>,
    serial: u64,
    paths: Option<P>,
) -> (pending: Option<P>)
    ensures
        pending == (if old(drag_state)@.is_pending_enter(serial) {
            paths
        } else {
            None
        }),
        final(drag_state)@ == (if paths is None && old(drag_state)@.is_pending_enter(serial) {
            old(drag_state)@.after_reset()
        } else {
            old(drag_state)@
        }),
{
    match paths {
        Some(paths) => if drag_state.is_current_pending_enter(serial) {
            Some(paths)
        } else {
            None
        },
        None => {
            drag_state.ignore(serial);
            None
        },
    }
}

/// The second half of `enter_data_arrived`: the drag over the window becomes
/// a new transfer, its files the window's received drag, and the window learns
/// that the drag entered, at its latest position (else at `entered_at`).
pub fn register_entered_drag<P, H, Pos: Copy>(
    drag_state: &mut WindowDragState<Pos>,
    dnd: &mut DndState<P, H>,
    paths: P,
    entered_at: Pos,
    window_id: WindowId,
    source_actions: DragAction,
) -> (event: DragEvent<Pos>)
    ensures
        registers_new_offer(old(dnd)@, final(dnd)@, window_id, paths, source_actions),
        final(drag_state)@ == (WindowDragStateView {
            transfer_id: Some(DataTransferId { raw: old(dnd)@.next_transfer_id }),
            ..old(drag_state)@
        }),
        event == (DragEvent::DragEntered {
            id: DataTransferId { raw: old(dnd)@.next_transfer_id },
            position: Some(latest_position(old(drag_state)@, entered_at)),
        }),
{
    let position = match drag_state.position() {
        Some(latest) => latest,
        None => entered_at,
    };
    let id = dnd.next_data_transfer_id();
    let offer = DataOffer::new(id, window_id, TypeHint::UriList, paths, source_actions);
    dnd.set_receive_drag(offer);
    drag_state.set_transfer_id(id);
    DragEvent::DragEntered { id, position: Some(position) }
}

/// The file list of the drag numbered `serial`, which entered at `entered_at`,
/// has arrived (`paths`), or could not be read or was empty (`None`).
///
/// If that drag is still over the window and waits for its data, it becomes a
/// new transfer: the window's received drag is a new offer of the files, and
/// the window learns that the drag entered, at its latest position. Data that
/// could not be had ends the drag if it still waits; stale data is dropped.
pub fn enter_data_arrived<P, H, Pos: Copy>(
    drag_state: &mut WindowDragState<Pos>,
    dnd: &mut DndState<P, H>,
    serial: u64,
    paths: Option<P>,
    entered_at: Pos,
    window_id: WindowId,
    source_actions: DragAction,
) -> (event: Option<DragEvent<Pos>>)
    ensures
        enter_data_arrived_post(
            old(drag_state)@,
            old(dnd)@,
            serial,
            paths,
            entered_at,
            window_id,
            source_actions,
            final(drag_state)@,
            final(dnd)@,
            optional_event(event),
        ),
{
    match pending_enter_paths(drag_state, serial, paths) {
        Some(pending) => {
            let event = register_entered_drag(
                drag_state,
                dnd,
                pending,
                entered_at,
                window_id,
                source_actions,
            );
            Some(event)
        },
        None => None,
    }
}

/// The drag moved to `position` over the window.
///
/// Once the drag is a transfer, the window learns the new position and the
/// action that the drag proposes, and the drop target accepts the GDK flag of
/// that action (none when there is no proposed action).
pub fn drag_moved<P, H, Pos: Copy>(
    drag_state: &mut WindowDragState<Pos>,
    dnd: &DndState<P, H>,
    position: Pos,
) -> (result: (Option<DragEvent<Pos>>, DragAction))
    ensures
        drag_moved_post(old(drag_state)@, dnd@, position, final(drag_state)@, optional_event(result.0)),
        result.1 == match old(drag_state)@.transfer_id {
            Some(id) => match selected_for(dnd@.receive_drag, id) {
                Some(set) => set,
                None => DragAction { bits: 0 },
            },
            None => DragAction { bits: 0 },
        },
{
    drag_state.moved(position);
    match drag_state.transfer_id() {
        Some(id) => {
            let (proposed_action, selected) = match dnd.receive_drag() {
                Some(offer) => if offer.transfer_id() == id {
                    (offer.proposed_action(), offer.selected_gdk_action())
                } else {
                    (None, None)
                },
                None => (None, None),
            };
            let accepted = match selected {
                Some(set) => set,
                None => DragAction::empty(),
            };
            (Some(DragEvent::DragPosition { id, position, proposed_action }), accepted)
        },
        None => (None, DragAction::empty()),
    }
}

/// The drag left the window: the drag ends, and if it had become a transfer,
/// the window forgets its offer and learns that the drag left.
pub fn drag_left<P, H, Pos: Copy>(
    drag_state: &mut WindowDragState<Pos>,
    dnd: &mut DndState<P, H>,
) -> (event: Option<DragEvent<Pos>>)
    ensures
        drag_left_post(
            old(drag_state)@,
            old(dnd)@,
            final(drag_state)@,
            final(dnd)@,
            optional_event(event),
        ),
{
    let id = drag_state.transfer_id();
    drag_state.reset();
    match id {
        Some(id) => {
            dnd.clear_receive_drag(id);
            Some(DragEvent::DragLeft { id })
        },
        None => None,
    }
}

/// The drag was dropped on the window at `position`, carrying `paths` (or no
/// readable, non-empty file list). Returns the events for the window and
/// whether the drop is accepted.
///
/// The drag ends. Without files, the window forgets its offer and nothing is
/// reported. With files, a drag that had not yet become a transfer becomes
/// one now (and the window learns that it entered); then the drop is accepted
/// if its offer proposes an action, and the window learns of the drop, or it
/// is refused, the offer is forgotten and the window learns that the drag left.
/// A drag that only becomes a transfer at the drop has no accepted actions
/// yet, so its drop is always refused.
pub fn drag_dropped<P, H, Pos: Copy>(
    drag_state: &mut WindowDragState<Pos>,
    dnd: &mut DndState<P, H>,
    paths: Option<P>,
    position: Pos,
    window_id: WindowId,
    source_actions: DragAction,
) -> (result: (Vec<DragEvent<Pos>>, bool))
    ensures
        drag_dropped_post(
            old(drag_state)@,
            old(dnd)@,
            paths,
            position,
            window_id,
            source_actions,
            final(drag_state)@,
            final(dnd)@,
            result.0@,
        ),
        result.1 == drop_accepted(old(drag_state)@, old(dnd)@, paths),
{
    let paths = match paths {
        Some(paths) => paths,
        None => {
            let id = drag_state.transfer_id();
            drag_state.reset();
            if let Some(id) = id {
                dnd.clear_receive_drag(id);
            }
            return (Vec::new(), false);
        },
    };
    let has_entered = drag_state.transfer_id().is_some();
    let id = match drag_state.transfer_id() {
        Some(id) => id,
        None => {
            let id = dnd.next_data_transfer_id();
            let offer = DataOffer::new(id, window_id, TypeHint::UriList, paths, source_actions);
            dnd.set_receive_drag(offer);
            drag_state.set_transfer_id(id);
            id
        },
    };
    drag_state.reset();
    let mut events: Vec<DragEvent<Pos>> = Vec::new();
    if !has_entered {
        events.push(DragEvent::DragEntered { id, position: Some(position) });
    }
    let proposed_action = match dnd.receive_drag() {
        Some(offer) => if offer.transfer_id() == id {
            offer.proposed_action()
        } else {
            None
        },
        None => None,
    };
    match proposed_action {
        Some(action) => {
            events.push(DragEvent::DragDropped { id, proposed_action: Some(action) });
            proof {
                assert(events@ =~= seq![DragEvent::<Pos>::DragDropped { id, proposed_action: Some(action) }]);
            }
            (events, true)
        },
        None => {
            dnd.clear_receive_drag(id);
            events.push(DragEvent::DragLeft { id });
            proof {
                if has_entered {
                    assert(events@ =~= seq![DragEvent::<Pos>::DragLeft { id }]);
                } else {
                    assert(events@ =~= seq![
                        DragEvent::DragEntered { id, position: Some(position) },
                        DragEvent::DragLeft { id },
                    ]);
                }
            }
            (events, false)
        },
    }
}
/// A drag that the application sent was dropped, and the target chose the GDK
/// flags `selected`: the event reports the action that they stand for.
pub fn outgoing_drop_performed<Pos>(id: DataTransferId, selected: DragAction) -> (event: DragEvent<Pos>)
    ensures
        event == (DragEvent::<Pos>::OutgoingDragDropped { id, action: preferred_action(selected.bits) }),
{
    let action = dnd_action_gdk_to_winit(selected);
    DragEvent::OutgoingDragDropped { id, action }
}

/// A drag that the application sent was canceled: it is forgotten, and the
/// event reports the cancellation.
pub fn outgoing_drag_canceled<P, H, Pos>(dnd: &mut DndState<P, H>, id: DataTransferId) -> (event: DragEvent<Pos>)
    ensures
        event == (DragEvent::<Pos>::OutgoingDragCanceled { id }),
        final(dnd)@ == (DndStateView {
            send_drag: send_drag_without(old(dnd)@.send_drag, id),
            ..old(dnd)@
        }),
{
    dnd.clear_send_drag(id);
    DragEvent::OutgoingDragCanceled { id }
}

/// While a drag moves, the GDK action that the drop target accepts is the
/// flag of the action proposed to the window, and none when none is proposed.
pub proof fn lemma_accepted_flag_matches_proposed_action<P>(
    receive_drag: Option<DataOffer<P>>,
    id: DataTransferId,
)
    ensures
        selected_for(receive_drag, id) == match proposed_for(receive_drag, id) {
            Some(action) => Some(DragAction { bits: action_flag(action) }),
            None => None,
        },
{
}

/// When a drop is accepted, the window learns of it through one `DragDropped`
/// event for the drag's transfer, and the action that the event reports is one
/// that the window accepts for that drag (`set_actions`) and that the drag's
/// source allows, with none that the window lists before it allowed by the
/// source.
pub proof fn lemma_dropped_action_is_first_accepted_allowed<P, H, Pos>(
    state: WindowDragStateView<Pos>,
    dnd: DndStateView<P, H>,
    paths: Option<P>,
    position: Pos,
    window_id: WindowId,
    source_actions: DragAction,
    after: WindowDragStateView<Pos>,
    dnd_after: DndStateView<P, H>,
    events: Seq<DragEvent<Pos>>,
)
    requires
        drag_dropped_post(
            state,
            dnd,
            paths,
            position,
            window_id,
            source_actions,
            after,
            dnd_after,
            events,
        ),
        drop_accepted(state, dnd, paths),
    ensures
        events.len() == 1,
        state.transfer_id matches Some(id) && dnd.receive_drag matches Some(offer)
            && events[0] matches DragEvent::DragDropped { id: dropped, proposed_action: Some(action) }
            && {
            &&& dropped == id
            &&& offer@.transfer_id == id
            &&& exists|i: int|
                is_first_offered(offer@.source_actions, offer@.valid_actions, i)
                    && #[trigger] offer@.valid_actions[i] == action
        },
{
    let id = state.transfer_id->0;
    let offer = dnd.receive_drag->0;
    lemma_proposed_action_is_first_allowed(offer@);
    let i = crate::dnd::offer::first_offered_index(offer@.source_actions, offer@.valid_actions);
    assert(is_first_offered(offer@.source_actions, offer@.valid_actions, i));
}

/// A drag of files that a window registers becomes its received drag, offered
/// as a URI list of those files.
pub proof fn lemma_registered_drag_is_uri_list<P, H>(
    before: DndStateView<P, H>,
    after: DndStateView<P, H>,
    window_id: WindowId,
    paths: P,
    source_actions: DragAction,
)
    requires
        registers_new_offer(before, after, window_id, paths, source_actions),
    ensures
        after.receive_drag matches Some(offer) && offer@.type_hint == TypeHint::UriList
            && offer@.paths == paths,
{
}

/// When the file list of a drag that waits over the window arrives, the
/// window's received drag is those files, offered as a URI list under the
/// transfer that the window learns of.
pub proof fn lemma_entered_drag_is_uri_list<P, H, Pos>(
    state: WindowDragStateView<Pos>,
    dnd: DndStateView<P, H>,
    serial: u64,
    paths: Option<P>,
    entered_at: Pos,
    window_id: WindowId,
    source_actions: DragAction,
    after: WindowDragStateView<Pos>,
    dnd_after: DndStateView<P, H>,
    events: Seq<DragEvent<Pos>>,
)
    requires
        enter_data_arrived_post(
            state,
            dnd,
            serial,
            paths,
            entered_at,
            window_id,
            source_actions,
            after,
            dnd_after,
            events,
        ),
        paths is Some,
        state.is_pending_enter(serial),
    ensures
        dnd_after.receive_drag matches Some(offer) && {
            &&& offer@.type_hint == TypeHint::UriList
            &&& offer@.paths == paths->0
            &&& after.transfer_id == Some(offer@.transfer_id)
        },
{
}

/// A drop registers no new received drag: afterwards the window's received
/// drag is the one it had, or none.
pub proof fn lemma_drop_keeps_or_forgets_received_drag<P, H, Pos>(
    state: WindowDragStateView<Pos>,
    dnd: DndStateView<P, H>,
    paths: Option<P>,
    position: Pos,
    window_id: WindowId,
    source_actions: DragAction,
    after: WindowDragStateView<Pos>,
    dnd_after: DndStateView<P, H>,
    events: Seq<DragEvent<Pos>>,
)
    requires
        drag_dropped_post(
            state,
            dnd,
            paths,
            position,
            window_id,
            source_actions,
            after,
            dnd_after,
            events,
        ),
    ensures
        dnd_after.receive_drag is None || dnd_after.receive_drag == dnd.receive_drag,
{
}

} // verus!
