//! Drag-and-drop actions, transfer bookkeeping and the drop target's decisions.

use winit_gtk4::dnd::action::{
    dnd_action_gdk_to_winit, dnd_action_winit_to_gdk, dnd_actions_to_gdk, DndAction, DragAction,
    ACTION_ASK, ACTION_COPY, ACTION_LINK, ACTION_MOVE,
};
use winit_gtk4::dnd::data::TypeHint;
use winit_gtk4::dnd::drag_state::WindowDragState;
use winit_gtk4::dnd::events::{
    drag_dropped, drag_left, drag_moved, enter_data_arrived, non_empty_paths, outgoing_drag_canceled,
    outgoing_drop_performed, DragEvent,
};
use winit_gtk4::dnd::offer::{DataOffer, DataTransferId, DndState, DragSource, WindowId};

type Pos = (i32, i32);

fn flags(bits: u32) -> DragAction {
    DragAction { bits }
}

fn id(raw: i64) -> DataTransferId {
    DataTransferId::from_raw(raw)
}

fn offer(raw: i64, source: u32) -> DataOffer<Vec<String>> {
    DataOffer::new(id(raw), WindowId { raw: 7 }, TypeHint::UriList, vec!["/tmp/a".to_string()], flags(source))
}

#[test]
fn action_flags() {
    assert_eq!(dnd_action_winit_to_gdk(DndAction::Move).bits, ACTION_MOVE);
    assert_eq!(dnd_action_winit_to_gdk(DndAction::Copy).bits, 1);
    assert_eq!(dnd_action_winit_to_gdk(DndAction::Link).bits, 4);
    assert_eq!(dnd_action_winit_to_gdk(DndAction::Ask).bits, 8);
    assert_eq!(dnd_action_winit_to_gdk(DndAction::Private).bits, 0);
}

#[test]
fn preferred_action_of_flags() {
    assert_eq!(dnd_action_gdk_to_winit(flags(ACTION_MOVE | ACTION_COPY)), Some(DndAction::Move));
    assert_eq!(dnd_action_gdk_to_winit(flags(ACTION_COPY | ACTION_LINK | ACTION_ASK)), Some(DndAction::Copy));
    assert_eq!(dnd_action_gdk_to_winit(flags(ACTION_LINK | ACTION_ASK)), Some(DndAction::Link));
    assert_eq!(dnd_action_gdk_to_winit(flags(ACTION_ASK)), Some(DndAction::Ask));
    assert_eq!(dnd_action_gdk_to_winit(flags(0)), None);
    assert_eq!(dnd_action_gdk_to_winit(flags(16)), None);
}

#[test]
fn action_round_trip() {
    for action in [DndAction::Move, DndAction::Copy, DndAction::Link, DndAction::Ask] {
        assert_eq!(dnd_action_gdk_to_winit(dnd_action_winit_to_gdk(action)), Some(action));
    }
    assert_eq!(dnd_action_gdk_to_winit(dnd_action_winit_to_gdk(DndAction::Private)), None);
}

#[test]
fn union_of_action_flags() {
    assert_eq!(dnd_actions_to_gdk(&[]).bits, 0);
    assert_eq!(dnd_actions_to_gdk(&[DndAction::Copy, DndAction::Link]).bits, 5);
    assert_eq!(dnd_actions_to_gdk(&[DndAction::Ask, DndAction::Private, DndAction::Ask]).bits, 8);
    let all = dnd_actions_to_gdk(&[DndAction::Move, DndAction::Copy]);
    assert!(all.contains(flags(ACTION_MOVE)));
    assert!(all.contains(flags(ACTION_COPY)));
    assert!(!all.contains(flags(ACTION_LINK)));
    assert!(all.intersects(flags(ACTION_COPY | ACTION_LINK)));
    assert!(!all.intersects(flags(ACTION_LINK | ACTION_ASK)));
    assert_eq!(DragAction::empty().union(flags(4)).bits, 4);
}

#[test]
fn proposed_action_is_first_allowed() {
    let mut o = offer(3, ACTION_COPY | ACTION_MOVE);
    assert_eq!(o.proposed_action(), None);
    assert_eq!(o.selected_gdk_action(), None);
    o.set_actions(&[DndAction::Private, DndAction::Link, DndAction::Copy, DndAction::Move]);
    assert_eq!(o.proposed_action(), Some(DndAction::Copy));
    assert_eq!(o.selected_gdk_action(), Some(flags(ACTION_COPY)));
    o.set_actions(&[DndAction::Ask]);
    assert_eq!(o.proposed_action(), None);
    assert_eq!(o.transfer_id(), id(3));
    assert_eq!(o.window_id(), WindowId { raw: 7 });
    assert_eq!(*o.type_hint(), TypeHint::UriList);
    assert_eq!(o.paths(), &vec!["/tmp/a".to_string()]);
}

#[test]
fn transfer_numbers() {
    let mut dnd: DndState<Vec<String>, ()> = DndState::new();
    assert_eq!(dnd.next_data_transfer_id(), id(0));
    assert_eq!(dnd.next_data_transfer_id(), id(1));
    assert_eq!(dnd.next_data_transfer_id().into_raw(), 2);
}

#[test]
fn received_drag_is_cleared_by_its_own_id_only() {
    let mut dnd: DndState<Vec<String>, ()> = DndState::default();
    assert!(dnd.receive_drag().is_none());
    dnd.set_receive_drag(offer(5, ACTION_COPY));
    dnd.clear_receive_drag(id(6));
    assert_eq!(dnd.receive_drag().map(|o| o.transfer_id()), Some(id(5)));
    if let Some(o) = dnd.receive_drag_mut() {
        o.set_actions(&[DndAction::Copy]);
    }
    assert_eq!(dnd.receive_drag().and_then(|o| o.proposed_action()), Some(DndAction::Copy));
    dnd.clear_receive_drag(id(5));
    assert!(dnd.receive_drag().is_none());
}

#[test]
fn sent_drag_is_cleared_by_its_own_id_only() {
    let mut dnd: DndState<Vec<String>, &str> = DndState::new();
    assert!(!dnd.clear_send_drag(id(1)));
    dnd.set_send_drag(DragSource::new(id(1), "drag"));
    assert!(!dnd.clear_send_drag(id(2)));
    assert!(dnd.clear_send_drag(id(1)));
    assert!(!dnd.clear_send_drag(id(1)));
}

#[test]
fn drag_state_serials() {
    let mut state: WindowDragState<Pos> = WindowDragState::new();
    assert_eq!(state.position(), None);
    state.moved((1, 1));
    assert_eq!(state.position(), None);
    let first = state.start((2, 3));
    assert_eq!(first, 1);
    assert!(state.is_current_pending_enter(first));
    assert_eq!(state.position(), Some((2, 3)));
    state.moved((4, 5));
    assert_eq!(state.position(), Some((4, 5)));
    let second = state.start((6, 7));
    assert_eq!(second, 2);
    assert!(!state.is_current_pending_enter(first));
    state.ignore(first);
    assert!(state.is_current_pending_enter(second));
    state.set_transfer_id(id(9));
    assert!(!state.is_current_pending_enter(second));
    state.ignore(second);
    assert_eq!(state.transfer_id(), Some(id(9)));
    state.reset();
    assert_eq!(state.transfer_id(), None);
    assert_eq!(state.position(), None);
}

#[test]
fn drag_state_ignore_ends_pending_drag() {
    let mut state: WindowDragState<Pos> = WindowDragState::default();
    let serial = state.start((0, 0));
    state.ignore(serial);
    assert!(!state.is_current_pending_enter(serial));
    assert_eq!(state.position(), None);
}

#[test]
fn paths_must_not_be_empty() {
    assert_eq!(non_empty_paths::<String>(vec![]), None);
    assert_eq!(non_empty_paths(vec!["a".to_string()]), Some(vec!["a".to_string()]));
}

#[test]
fn entering_drag_becomes_a_transfer() {
    let mut state: WindowDragState<Pos> = WindowDragState::new();
    let mut dnd: DndState<Vec<String>, ()> = DndState::new();
    let window = WindowId { raw: 1 };
    let serial = state.start((10, 10));
    state.moved((11, 12));
    let event = enter_data_arrived(
        &mut state,
        &mut dnd,
        serial,
        Some(vec!["/a".to_string()]),
        (10, 10),
        window,
        flags(ACTION_COPY),
    );
    assert_eq!(event, Some(DragEvent::DragEntered { id: id(0), position: Some((11, 12)) }));
    assert_eq!(state.transfer_id(), Some(id(0)));
    let o = dnd.receive_drag().unwrap();
    assert_eq!(o.transfer_id(), id(0));
    assert_eq!(o.window_id(), window);
    assert_eq!(o.paths(), &vec!["/a".to_string()]);
    // The same data arriving again does nothing.
    let again = enter_data_arrived(&mut state, &mut dnd, serial, Some(vec![]), (0, 0), window, flags(0));
    assert_eq!(again, None);
}

#[test]
fn stale_or_missing_data_is_ignored() {
    let mut state: WindowDragState<Pos> = WindowDragState::new();
    let mut dnd: DndState<Vec<String>, ()> = DndState::new();
    let window = WindowId { raw: 1 };
    let old = state.start((1, 1));
    let new = state.start((2, 2));
    let stale = enter_data_arrived(&mut state, &mut dnd, old, Some(vec!["/a".to_string()]), (1, 1), window, flags(1));
    assert_eq!(stale, None);
    assert!(dnd.receive_drag().is_none());
    assert!(state.is_current_pending_enter(new));
    let missing = enter_data_arrived(&mut state, &mut dnd, new, None, (2, 2), window, flags(1));
    assert_eq!(missing, None);
    assert!(!state.is_current_pending_enter(new));
    assert_eq!(state.position(), None);
}

#[test]
fn motion_reports_position_and_proposed_action() {
    let mut state: WindowDragState<Pos> = WindowDragState::new();
    let mut dnd: DndState<Vec<String>, ()> = DndState::new();
    let window = WindowId { raw: 1 };
    assert_eq!(drag_moved(&mut state, &dnd, (0, 0)), (None, DragAction::empty()));
    let serial = state.start((0, 0));
    enter_data_arrived(&mut state, &mut dnd, serial, Some(vec!["/a".to_string()]), (0, 0), window, flags(ACTION_COPY | ACTION_LINK));
    assert_eq!(
        drag_moved(&mut state, &dnd, (3, 4)),
        (Some(DragEvent::DragPosition { id: id(0), position: (3, 4), proposed_action: None }), flags(0))
    );
    dnd.receive_drag_mut().unwrap().set_actions(&[DndAction::Move, DndAction::Link]);
    assert_eq!(
        drag_moved(&mut state, &dnd, (5, 6)),
        (
            Some(DragEvent::DragPosition { id: id(0), position: (5, 6), proposed_action: Some(DndAction::Link) }),
            flags(ACTION_LINK)
        )
    );
    assert_eq!(state.position(), Some((5, 6)));
}

#[test]
fn leaving_forgets_the_offer() {
    let mut state: WindowDragState<Pos> = WindowDragState::new();
    let mut dnd: DndState<Vec<String>, ()> = DndState::new();
    let window = WindowId { raw: 1 };
    assert_eq!(drag_left(&mut state, &mut dnd), None);
    let serial = state.start((0, 0));
    enter_data_arrived(&mut state, &mut dnd, serial, Some(vec!["/a".to_string()]), (0, 0), window, flags(1));
    assert_eq!(drag_left(&mut state, &mut dnd), Some(DragEvent::DragLeft { id: id(0) }));
    assert!(dnd.receive_drag().is_none());
    assert_eq!(state.transfer_id(), None);
}

#[test]
fn accepted_drop() {
    let mut state: WindowDragState<Pos> = WindowDragState::new();
    let mut dnd: DndState<Vec<String>, ()> = DndState::new();
    let window = WindowId { raw: 1 };
    let serial = state.start((0, 0));
    enter_data_arrived(&mut state, &mut dnd, serial, Some(vec!["/a".to_string()]), (0, 0), window, flags(ACTION_COPY));
    dnd.receive_drag_mut().unwrap().set_actions(&[DndAction::Copy]);
    let (events, accepted) = drag_dropped(&mut state, &mut dnd, Some(vec!["/a".to_string()]), (1, 1), window, flags(ACTION_COPY));
    assert!(accepted);
    assert_eq!(events, vec![DragEvent::DragDropped { id: id(0), proposed_action: Some(DndAction::Copy) }]);
    assert!(dnd.receive_drag().is_some());
    assert_eq!(state.transfer_id(), None);
}

#[test]
fn refused_drop() {
    let mut state: WindowDragState<Pos> = WindowDragState::new();
    let mut dnd: DndState<Vec<String>, ()> = DndState::new();
    let window = WindowId { raw: 1 };
    let serial = state.start((0, 0));
    enter_data_arrived(&mut state, &mut dnd, serial, Some(vec!["/a".to_string()]), (0, 0), window, flags(ACTION_COPY));
    dnd.receive_drag_mut().unwrap().set_actions(&[DndAction::Move]);
    let (events, accepted) = drag_dropped(&mut state, &mut dnd, Some(vec!["/a".to_string()]), (1, 1), window, flags(ACTION_COPY));
    assert!(!accepted);
    assert_eq!(events, vec![DragEvent::DragLeft { id: id(0) }]);
    assert!(dnd.receive_drag().is_none());
}

#[test]
fn drop_before_enter_completed_is_refused() {
    let mut state: WindowDragState<Pos> = WindowDragState::new();
    let mut dnd: DndState<Vec<String>, ()> = DndState::new();
    let window = WindowId { raw: 1 };
    state.start((0, 0));
    let (events, accepted) = drag_dropped(&mut state, &mut dnd, Some(vec!["/a".to_string()]), (4, 4), window, flags(ACTION_COPY));
    assert!(!accepted);
    assert_eq!(
        events,
        vec![DragEvent::DragEntered { id: id(0), position: Some((4, 4)) }, DragEvent::DragLeft { id: id(0) }]
    );
    assert!(dnd.receive_drag().is_none());
    assert_eq!(dnd.next_data_transfer_id(), id(1));
}

#[test]
fn drop_without_files() {
    let mut state: WindowDragState<Pos> = WindowDragState::new();
    let mut dnd: DndState<Vec<String>, ()> = DndState::new();
    let window = WindowId { raw: 1 };
    let serial = state.start((0, 0));
    enter_data_arrived(&mut state, &mut dnd, serial, Some(vec!["/a".to_string()]), (0, 0), window, flags(ACTION_COPY));
    let (events, accepted) = drag_dropped(&mut state, &mut dnd, None, (1, 1), window, flags(ACTION_COPY));
    assert!(!accepted);
    assert!(events.is_empty());
    assert!(dnd.receive_drag().is_none());
    assert_eq!(state.transfer_id(), None);
}

#[test]
fn outgoing_drag_events() {
    let event: DragEvent<Pos> = outgoing_drop_performed(id(4), flags(ACTION_LINK | ACTION_ASK));
    assert_eq!(event, DragEvent::OutgoingDragDropped { id: id(4), action: Some(DndAction::Link) });
    let none: DragEvent<Pos> = outgoing_drop_performed(id(4), flags(0));
    assert_eq!(none, DragEvent::OutgoingDragDropped { id: id(4), action: None });
    let mut dnd: DndState<Vec<String>, u8> = DndState::new();
    dnd.set_send_drag(DragSource::new(id(4), 0u8));
    let canceled: DragEvent<Pos> = outgoing_drag_canceled(&mut dnd, id(4));
    assert_eq!(canceled, DragEvent::OutgoingDragCanceled { id: id(4) });
    assert!(!dnd.clear_send_drag(id(4)));
}

/// Checks that each transfer enters once, before its other events, and that
/// nothing about it follows its end.
fn assert_well_ordered(events: &[DragEvent<Pos>]) {
    let id_of = |e: &DragEvent<Pos>| match e {
        DragEvent::DragEntered { id, .. }
        | DragEvent::DragPosition { id, .. }
        | DragEvent::DragLeft { id }
        | DragEvent::DragDropped { id, .. }
        | DragEvent::OutgoingDragDropped { id, .. }
        | DragEvent::OutgoingDragCanceled { id } => *id,
    };
    for (j, e) in events.iter().enumerate() {
        let earlier = &events[..j];
        let entered_before = earlier
            .iter()
            .filter(|x| matches!(x, DragEvent::DragEntered { .. }) && id_of(x) == id_of(e))
            .count();
        match e {
            DragEvent::DragEntered { .. } => assert_eq!(entered_before, 0),
            _ => assert_eq!(entered_before, 1),
        }
        assert!(!earlier.iter().any(|x| {
            matches!(x, DragEvent::DragLeft { .. } | DragEvent::DragDropped { .. }) && id_of(x) == id_of(e)
        }));
    }
}

#[test]
fn events_of_interleaved_drags_are_well_ordered() {
    let mut state: WindowDragState<Pos> = WindowDragState::new();
    let mut dnd: DndState<Vec<String>, ()> = DndState::new();
    let window = WindowId { raw: 1 };
    let files = || Some(vec!["/a".to_string()]);
    let mut events: Vec<DragEvent<Pos>> = Vec::new();

    let first = state.start((0, 0));
    events.extend(drag_moved(&mut state, &dnd, (1, 1)).0);
    let second = state.start((2, 2));
    events.extend(enter_data_arrived(&mut state, &mut dnd, first, files(), (0, 0), window, flags(1)));
    events.extend(enter_data_arrived(&mut state, &mut dnd, second, files(), (2, 2), window, flags(1)));
    events.extend(enter_data_arrived(&mut state, &mut dnd, second, files(), (2, 2), window, flags(1)));
    events.extend(drag_moved(&mut state, &dnd, (3, 3)).0);
    events.extend(drag_left(&mut state, &mut dnd));
    events.extend(drag_moved(&mut state, &dnd, (4, 4)).0);
    events.extend(drag_left(&mut state, &mut dnd));
    dnd.next_data_transfer_id();
    state.start((5, 5));
    events.extend(drag_dropped(&mut state, &mut dnd, files(), (6, 6), window, flags(1)).0);
    let third = state.start((7, 7));
    events.extend(enter_data_arrived(&mut state, &mut dnd, third, files(), (7, 7), window, flags(1)));
    dnd.receive_drag_mut().unwrap().set_actions(&[DndAction::Copy]);
    events.extend(drag_dropped(&mut state, &mut dnd, files(), (8, 8), window, flags(1)).0);
    events.extend(drag_dropped(&mut state, &mut dnd, files(), (9, 9), window, flags(1)).0);

    assert_eq!(events.len(), 9);
    assert_eq!(events[0], DragEvent::DragEntered { id: id(0), position: Some((2, 2)) });
    assert_eq!(events[2], DragEvent::DragLeft { id: id(0) });
    assert_eq!(events[3], DragEvent::DragEntered { id: id(2), position: Some((6, 6)) });
    assert_eq!(events[4], DragEvent::DragLeft { id: id(2) });
    assert_eq!(events[6], DragEvent::DragDropped { id: id(3), proposed_action: Some(DndAction::Copy) });
    assert_well_ordered(&events);
}
