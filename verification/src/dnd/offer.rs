//! The drag-and-drop state of the event loop: the numbering of transfers, the
//! drag that a window is receiving, and the drag that the application sends.

use vstd::prelude::*;

use crate::dnd::action::{
    action_flag, dnd_action_gdk_to_winit, dnd_action_winit_to_gdk, lemma_action_flag_round_trip,
    lemma_private_action_shares_nothing, shares_flags, DndAction, DragAction,
};
use crate::dnd::data::TypeHint;

verus! {

/// The number of one data transfer, unique among the transfers of an event loop.
#[derive(Clone, Copy, Debug, PartialEq, Eq, Hash, Structural)]
pub struct DataTransferId {
    pub raw: i64,
}

impl DataTransferId {
    /// The transfer with number `raw`.
    pub fn from_raw(raw: i64) -> (id: Self)
        ensures
            id.raw == raw,
    {
        DataTransferId { raw }
    }

    /// The number of the transfer.
    pub fn into_raw(self) -> (raw: i64)
        ensures
            raw == self.raw,
    {
        self.raw
    }
}

/// The number of a window.
#[derive(Clone, Copy, Debug, PartialEq, Eq, Hash, Structural)]
pub struct WindowId {
    pub raw: u64,
}

/// The number that follows `n` when numbers wrap around at the ends of `i64`.
pub open spec fn next_raw_id(n: i64) -> i64 {
    if n == i64::MAX {
        i64::MIN
    } else {
        (n + 1) as i64
    }
}

/// `action` is one that a drag whose source allows `source` can carry out.
pub open spec fn is_offered(source: DragAction, action: DndAction) -> bool {
    shares_flags(source.bits, action_flag(action))
}

/// Index `i` of `actions` is the first action that `source` allows.
pub open spec fn is_first_offered(source: DragAction, actions: Seq<DndAction>, i: int) -> bool {
    &&& 0 <= i < actions.len()
    &&& is_offered(source, actions[i])
    &&& forall|j: int| 0 <= j < i ==> !is_offered(source, #[trigger] actions[j])
}

/// `source` allows none of `actions`.
pub open spec fn offers_none(source: DragAction, actions: Seq<DndAction>) -> bool {
    forall|i: int| 0 <= i < actions.len() ==> !is_offered(source, #[trigger] actions[i])
}

/// What a received drag is, as the contracts speak of it.
pub struct DataOfferView<P> {
    pub transfer_id: DataTransferId,
    pub window_id: WindowId,
    pub type_hint: TypeHint,
    pub paths: P,
    /// The actions that the drag's source allows.
    pub source_actions: DragAction,
    /// The actions that the receiving window accepts, in its order of preference.
    pub valid_actions: Seq<DndAction>,
}

/// A drag that a window receives: a list of files, offered by another
/// application (or by this one) with a set of actions.
#[derive(Clone, Debug)]
pub struct DataOffer<P> {
    data_transfer_id: DataTransferId,
    window_id: WindowId,
    type_: TypeHint,
    paths: P,
    source_actions: DragAction,
    valid_actions: Vec<DndAction>,
}

impl<P> View for DataOffer<P> {
    type V = DataOfferView<P>;

    closed spec fn view(&self) -> DataOfferView<P> {
        DataOfferView {
            transfer_id: self.data_transfer_id,
            window_id: self.window_id,
            type_hint: self.type_,
            paths: self.paths,
            source_actions: self.source_actions,
            valid_actions: self.valid_actions@,
        }
    }
}

impl<P> DataOffer<P> {
    /// A new offer, which the receiving window accepts no action of yet.
    pub fn new(
        data_transfer_id: DataTransferId,
        window_id: WindowId,
        type_: TypeHint,
        paths: P,
        source_actions: DragAction,
    ) -> (offer: Self)
        ensures
            offer@.transfer_id == data_transfer_id,
            offer@.window_id == window_id,
            offer@.type_hint == type_,
            offer@.paths == paths,
            offer@.source_actions == source_actions,
            offer@.valid_actions == Seq::<DndAction>::empty(),
    {
        DataOffer {
            data_transfer_id,
            window_id,
            type_,
            paths,
            source_actions,
            valid_actions: Vec::new(),
        }
    }

    pub fn transfer_id(&self) -> (id: DataTransferId)
        ensures
            id == self@.transfer_id,
    {
        self.data_transfer_id
    }

    pub fn window_id(&self) -> (id: WindowId)
        ensures
            id == self@.window_id,
    {
        self.window_id
    }

    /// The kind of data on offer.
    pub fn type_hint(&self) -> (hint: &TypeHint)
        ensures
            *hint == self@.type_hint,
    {
        &self.type_
    }

    /// The dragged files.
    pub fn paths(&self) -> (paths: &P)
        ensures
            *paths == self@.paths,
    {
        &self.paths
    }

    /// Sets the actions that the receiving window accepts, most wanted first.
    pub fn set_actions(&mut self, action_set: &[DndAction])
        ensures
            final(self)@.valid_actions == action_set@,
            final(self)@.transfer_id == old(self)@.transfer_id,
            final(self)@.window_id == old(self)@.window_id,
            final(self)@.type_hint == old(self)@.type_hint,
            final(self)@.paths == old(self)@.paths,
            final(self)@.source_actions == old(self)@.source_actions,
    {
        self.valid_actions.clear();
        self.valid_actions.extend_from_slice(action_set);
    }

    /// The GDK flag of the first accepted action that the source allows.
    pub fn selected_gdk_action(&self) -> (selected: Option<DragAction>)
        ensures
            selected == selected_flag_of(self@),
    {
        let mut i: usize = 0;
        while i < self.valid_actions.len()
            invariant
                i <= self.valid_actions@.len(),
                forall|j: int|
                    0 <= j < i ==> !is_offered(self.source_actions, #[trigger] self.valid_actions@[j]),
            decreases self.valid_actions@.len() - i,
        {
            let action = dnd_action_winit_to_gdk(self.valid_actions[i]);
            if self.source_actions.intersects(action) {
                proof {
                    lemma_first_offered_is_unique(self@.source_actions, self@.valid_actions, i as int);
                }
                return Some(action);
            }
            i = i + 1;
        }
        None
    }

    /// The first accepted action that the source allows, if there is one.
    pub fn proposed_action(&self) -> (proposed: Option<DndAction>)
        ensures
            proposed == proposed_action_of(self@),
    {
        match self.selected_gdk_action() {
            Some(set) => {
                let action = dnd_action_gdk_to_winit(set);
                proof {
                    lemma_proposed_action_is_first_allowed(self@);
                    lemma_action_flag_round_trip(proposed_action_of(self@)->0);
                }
                action
            },
            None => None,
        }
    }
}

/// The index of the first of `actions` that `source` allows (meaningful when
/// `source` allows one of them).
pub open spec fn first_offered_index(source: DragAction, actions: Seq<DndAction>) -> int {
    choose|i: int| is_first_offered(source, actions, i)
}

/// The action that a received drag proposes: the first action that the window
/// accepts and the source allows.
pub open spec fn proposed_action_of<P>(offer: DataOfferView<P>) -> Option<DndAction> {
    if offers_none(offer.source_actions, offer.valid_actions) {
        None
    } else {
        Some(offer.valid_actions[first_offered_index(offer.source_actions, offer.valid_actions)])
    }
}

/// The GDK flag of the action that a received drag proposes.
pub open spec fn selected_flag_of<P>(offer: DataOfferView<P>) -> Option<DragAction> {
    match proposed_action_of(offer) {
        Some(action) => Some(DragAction { bits: action_flag(action) }),
        None => None,
    }
}

/// When `source` allows one of `actions`, exactly one index is the first such.
pub proof fn lemma_first_offered_is_unique(source: DragAction, actions: Seq<DndAction>, i: int)
    requires
        is_first_offered(source, actions, i),
    ensures
        !offers_none(source, actions),
        first_offered_index(source, actions) == i,
{
    let k = first_offered_index(source, actions);
    assert(is_first_offered(source, actions, k));
    if k < i {
        assert(!is_offered(source, actions[k]));
    } else if i < k {
        assert(!is_offered(source, actions[i]));
    }
}

/// The proposed action is one that the window accepts and the source allows,
/// none that comes earlier in the window's list is allowed, and there is a
/// proposed action whenever the source allows any accepted one. A private
/// action is never proposed.
pub proof fn lemma_proposed_action_is_first_allowed<P>(offer: DataOfferView<P>)
    ensures
        proposed_action_of(offer) is None <==> offers_none(offer.source_actions, offer.valid_actions),
        proposed_action_of(offer) matches Some(action) ==> {
            let i = first_offered_index(offer.source_actions, offer.valid_actions);
            &&& is_first_offered(offer.source_actions, offer.valid_actions, i)
            &&& offer.valid_actions[i] == action
            &&& action != DndAction::Private
        },
{
    if !offers_none(offer.source_actions, offer.valid_actions) {
        let i = choose|i: int|
            0 <= i < offer.valid_actions.len() && is_offered(offer.source_actions, #[trigger] offer.valid_actions[i]);
        lemma_exists_first_offered(offer.source_actions, offer.valid_actions, i);
        lemma_private_action_shares_nothing(offer.source_actions.bits);
    }
}

/// If `source` allows the action at index `i`, some index is the first allowed.
proof fn lemma_exists_first_offered(source: DragAction, actions: Seq<DndAction>, i: int)
    requires
        0 <= i < actions.len(),
        is_offered(source, actions[i]),
    ensures
        exists|k: int| is_first_offered(source, actions, k),
    decreases i,
{
    if forall|j: int| 0 <= j < i ==> !is_offered(source, #[trigger] actions[j]) {
        assert(is_first_offered(source, actions, i));
    } else {
        let j = choose|j: int| 0 <= j < i && !!is_offered(source, #[trigger] actions[j]);
        lemma_exists_first_offered(source, actions, j);
    }
}

/// What a sent drag is, as the contracts speak of it.
pub struct DragSourceView<H> {
    pub transfer_id: DataTransferId,
    pub handle: H,
}

/// A drag that the application sends: its transfer number and the handle of
/// the platform's drag, which lives as long as the drag does.
#[derive(Debug)]
pub struct DragSource<H> {
    data_transfer_id: DataTransferId,
    handle: H,
}

impl<H> View for DragSource<H> {
    type V = DragSourceView<H>;

    closed spec fn view(&self) -> DragSourceView<H> {
        DragSourceView { transfer_id: self.data_transfer_id, handle: self.handle }
    }
}

impl<H> DragSource<H> {
    pub fn new(data_transfer_id: DataTransferId, handle: H) -> (source: Self)
        ensures
            source@.transfer_id == data_transfer_id,
            source@.handle == handle,
    {
        DragSource { data_transfer_id, handle }
    }
}

/// The drag-and-drop state, as the contracts speak of it.
pub struct DndStateView<P, H> {
    /// The number that the next transfer gets.
    pub next_transfer_id: i64,
    pub receive_drag: Option<DataOffer<P>>,
    pub send_drag: Option<DragSource<H>>,
}

/// What is left of a received drag after the drag `id` ends: nothing if it is
/// that drag, else the drag itself.
pub open spec fn receive_drag_without<P>(
    receive_drag: Option<DataOffer<P>>,
    id: DataTransferId,
) -> Option<DataOffer<P>> {
    match receive_drag {
        Some(offer) => if offer@.transfer_id == id {
            None
        } else {
            Some(offer)
        },
        None => None,
    }
}

/// What is left of a sent drag after the drag `id` ends.
pub open spec fn send_drag_without<H>(
    send_drag: Option<DragSource<H>>,
    id: DataTransferId,
) -> Option<DragSource<H>> {
    match send_drag {
        Some(source) => if source@.transfer_id == id {
            None
        } else {
            Some(source)
        },
        None => None,
    }
}

/// The drag-and-drop state of an event loop: the number of the next transfer,
/// the drag that one of its windows receives and the drag that it sends.
#[derive(Debug)]
pub struct DndState<P, H> {
    next_transfer_id: i64,
    receive_drag: Option<DataOffer<P>>,
    send_drag: Option<DragSource<H>>,
}

impl<P, H> View for DndState<P, H> {
    type V = DndStateView<P, H>;

    closed spec fn view(&self) -> DndStateView<P, H> {
        DndStateView {
            next_transfer_id: self.next_transfer_id,
            receive_drag: self.receive_drag,
            send_drag: self.send_drag,
        }
    }
}

impl<P, H> DndState<P, H> {
    /// No drag, with transfers numbered from 0.
    pub fn new() -> (state: Self)
        ensures
            state@.next_transfer_id == 0,
            state@.receive_drag is None,
            state@.send_drag is None,
    {
        DndState { next_transfer_id: 0, receive_drag: None, send_drag: None }
    }

    /// Hands out the next transfer number; numbers wrap around at the ends of `i64`.
    pub fn next_data_transfer_id(&mut self) -> (id: DataTransferId)
        ensures
            id.raw == old(self)@.next_transfer_id,
            final(self)@.next_transfer_id == next_raw_id(old(self)@.next_transfer_id),
            final(self)@.receive_drag == old(self)@.receive_drag,
            final(self)@.send_drag == old(self)@.send_drag,
    {
        let id = DataTransferId::from_raw(self.next_transfer_id);
        self.next_transfer_id = self.next_transfer_id.wrapping_add(1);
        id
    }

    pub fn set_receive_drag(&mut self, offer: DataOffer<P>)
        ensures
            final(self)@.receive_drag == Some(offer),
            final(self)@.next_transfer_id == old(self)@.next_transfer_id,
            final(self)@.send_drag == old(self)@.send_drag,
    {
        self.receive_drag = Some(offer);
    }

    pub fn receive_drag(&self) -> (offer: Option<&DataOffer<P>>)
        ensures
            offer matches Some(o) ==> self@.receive_drag == Some(*o),
            offer is None <==> self@.receive_drag is None,
    {
        self.receive_drag.as_ref()
    }

    /// The received drag, to change in place.
    pub fn receive_drag_mut(&mut self) -> (offer: Option<&mut DataOffer<P>>)
        ensures
            offer is None <==> old(self)@.receive_drag is None,
            offer matches Some(o) ==> old(self)@.receive_drag == Some(*o) && final(self)@.receive_drag
                == Some(*final(o)),
            offer is None ==> final(self)@.receive_drag is None,
            final(self)@.next_transfer_id == old(self)@.next_transfer_id,
            final(self)@.send_drag == old(self)@.send_drag,
    {
        self.receive_drag.as_mut()
    }

    /// Forgets the received drag if it is the drag `id`.
    pub fn clear_receive_drag(&mut self, id: DataTransferId)
        ensures
            final(self)@.receive_drag == receive_drag_without(old(self)@.receive_drag, id),
            final(self)@.next_transfer_id == old(self)@.next_transfer_id,
            final(self)@.send_drag == old(self)@.send_drag,
    {
        let matches = match &self.receive_drag {
            Some(offer) => offer.transfer_id() == id,
            None => false,
        };
        if matches {
            self.receive_drag = None;
        }
    }

    pub fn set_send_drag(&mut self, source: DragSource<H>)
        ensures
            final(self)@.send_drag == Some(source),
            final(self)@.next_transfer_id == old(self)@.next_transfer_id,
            final(self)@.receive_drag == old(self)@.receive_drag,
    {
        self.send_drag = Some(source);
    }

    /// Forgets the sent drag if it is the drag `id`, and tells whether it was.
    pub fn clear_send_drag(&mut self, id: DataTransferId) -> (cleared: bool)
        ensures
            cleared == (old(self)@.send_drag matches Some(source) && source@.transfer_id == id),
            final(self)@.send_drag == send_drag_without(old(self)@.send_drag, id),
            final(self)@.next_transfer_id == old(self)@.next_transfer_id,
            final(self)@.receive_drag == old(self)@.receive_drag,
    {
        let matches = match &self.send_drag {
            Some(source) => source.data_transfer_id == id,
            None => false,
        };
        if matches {
            self.send_drag = None;
            true
        } else {
            false
        }
    }
}

impl<P, H> Default for DndState<P, H> {
    fn default() -> (state: Self)
        ensures
            state@.next_transfer_id == 0,
            state@.receive_drag is None,
            state@.send_drag is None,
    {
        DndState::new()
    }
}

/// The transfer number handed out `k` numbers after `start`.
pub open spec fn raw_id_after(start: i64, k: nat) -> i64
    decreases k,
{
    if k == 0 {
        start
    } else {
        next_raw_id(raw_id_after(start, (k - 1) as nat))
    }
}

/// The `k`-th number after `start` is `start + k`, wrapped into `i64`.
proof fn lemma_raw_id_after_closed_form(start: i64, k: nat)
    requires
        k < 0x1_0000_0000_0000_0000,
    ensures
        raw_id_after(start, k) == (if start + k <= i64::MAX {
            start + k
        } else {
            start + k - 0x1_0000_0000_0000_0000
        }),
    decreases k,
{
    if k > 0 {
        lemma_raw_id_after_closed_form(start, (k - 1) as nat);
    }
}

/// Transfer numbers do not repeat: after any number `start`, the next
/// 2^64 - 1 numbers handed out all differ from it.
pub proof fn lemma_transfer_ids_do_not_repeat(start: i64, k: nat)
    requires
        0 < k < 0x1_0000_0000_0000_0000,
    ensures
        raw_id_after(start, k) != start,
{
    lemma_raw_id_after_closed_form(start, k);
}

/// Ending the drag `id` forgets a received drag registered under `id`, and
/// keeps one registered under any other number.
pub proof fn lemma_clearing_forgets_only_its_own_drag<P>(offer: DataOffer<P>, id: DataTransferId)
    ensures
        receive_drag_without(Some(offer), offer@.transfer_id) is None,
        id != offer@.transfer_id ==> receive_drag_without(Some(offer), id) == Some(offer),
        receive_drag_without(None::<DataOffer<P>>, id) is None,
{
}

/// Ending the drag `id` forgets a sent drag numbered `id`, and keeps one
/// numbered otherwise.
pub proof fn lemma_clearing_forgets_only_its_own_source<H>(source: DragSource<H>, id: DataTransferId)
    ensures
        send_drag_without(Some(source), source@.transfer_id) is None,
        id != source@.transfer_id ==> send_drag_without(Some(source), id) == Some(source),
{
}

/// Among the next 2^64 numbers after `start`, no two are equal.
pub proof fn lemma_raw_ids_distinct(start: i64, a: nat, b: nat)
    requires
        a < b < 0x1_0000_0000_0000_0000,
    ensures
        raw_id_after(start, a) != raw_id_after(start, b),
{
    lemma_raw_id_after_closed_form(start, a);
    lemma_raw_id_after_closed_form(start, b);
}

/// Counting `c` numbers on from the `a`-th number after `start` gives the
/// `(a + c)`-th.
pub proof fn lemma_raw_id_after_add(start: i64, a: nat, c: nat)
    ensures
        raw_id_after(raw_id_after(start, a), c) == raw_id_after(start, a + c),
    decreases c,
{
    if c > 0 {
        lemma_raw_id_after_add(start, a, (c - 1) as nat);
        assert((a + c - 1) as nat == a + (c - 1));
    }
}

} // verus!
