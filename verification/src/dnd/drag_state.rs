//! The state of a drag over one window: whether a drag is in progress, where
//! it is, and which transfer it has become once its file list arrived.

use vstd::prelude::*;

use crate::dnd::offer::DataTransferId;

verus! {

/// The drag state of a window, as the contracts speak of it.
pub struct WindowDragStateView<Pos> {
    /// A drag is over the window.
    pub active: bool,
    /// The number of the latest drag that entered the window.
    pub serial: u64,
    /// The latest position of the drag.
    pub position: Option<Pos>,
    /// The transfer that the drag became, once its data is known.
    pub transfer_id: Option<DataTransferId>,
}

impl<Pos> WindowDragStateView<Pos> {
    /// A position is known exactly while a drag is over the window.
    pub open spec fn is_consistent(self) -> bool {
        self.position is Some <==> self.active
    }

    /// The state after the drag ended: nothing active, no position, no transfer.
    pub open spec fn after_reset(self) -> Self {
        WindowDragStateView { active: false, serial: self.serial, position: None, transfer_id: None }
    }

    /// The state after a new drag entered at `position`: active, with the next
    /// serial number and no transfer yet.
    pub open spec fn after_start(self, position: Pos) -> Self {
        WindowDragStateView {
            active: true,
            serial: next_serial(self.serial),
            position: Some(position),
            transfer_id: None,
        }
    }

    /// The drag numbered `serial` is over the window and waits for its data.
    pub open spec fn is_pending_enter(self, serial: u64) -> bool {
        self.active && self.serial == serial && self.transfer_id is None
    }
}

/// The serial number after `serial`, wrapping around at the end of `u64`.
pub open spec fn next_serial(serial: u64) -> u64 {
    if serial == u64::MAX {
        0
    } else {
        (serial + 1) as u64
    }
}

/// The drag state of one window.
#[derive(Debug)]
pub struct WindowDragState<Pos> {
    active: bool,
    serial: u64,
    position: Option<Pos>,
    transfer_id: Option<DataTransferId>,
}

impl<Pos> View for WindowDragState<Pos> {
    type V = WindowDragStateView<Pos>;

    closed spec fn view(&self) -> WindowDragStateView<Pos> {
        WindowDragStateView {
            active: self.active,
            serial: self.serial,
            position: self.position,
            transfer_id: self.transfer_id,
        }
    }
}

impl<Pos: Copy> WindowDragState<Pos> {
    /// No drag, and no drag numbered yet.
    pub fn new() -> (state: Self)
        ensures
            state@ == (WindowDragStateView::<Pos> {
                active: false,
                serial: 0,
                position: None,
                transfer_id: None,
            }),
            state@.is_consistent(),
    {
        WindowDragState { active: false, serial: 0, position: None, transfer_id: None }
    }

    /// The position of the drag, if one is over the window.
    pub fn position(&self) -> (position: Option<Pos>)
        ensures
            position == (if self@.active {
                self@.position
            } else {
                None
            }),
    {
        if !self.active {
            return None;
        }
        self.position
    }

    pub fn transfer_id(&self) -> (id: Option<DataTransferId>)
        ensures
            id == self@.transfer_id,
    {
        self.transfer_id
    }

    pub fn set_transfer_id(&mut self, id: DataTransferId)
        ensures
            final(self)@ == (WindowDragStateView { transfer_id: Some(id), ..old(self)@ }),
    {
        self.transfer_id = Some(id);
    }

    /// A new drag entered at `position`; returns its serial number.
    pub fn start(&mut self, position: Pos) -> (serial: u64)
        ensures
            final(self)@ == old(self)@.after_start(position),
            serial == final(self)@.serial,
    {
        self.reset();
        self.active = true;
        self.serial = self.serial.wrapping_add(1);
        self.position = Some(position);
        self.serial
    }

    /// The drag numbered `serial` is over the window and waits for its data.
    pub fn is_current_pending_enter(&self, serial: u64) -> (pending: bool)
        ensures
            pending == self@.is_pending_enter(serial),
    {
        self.active && self.serial == serial && self.transfer_id.is_none()
    }

    /// The drag moved to `position`; ignored when no drag is over the window.
    pub fn moved(&mut self, position: Pos)
        ensures
            final(self)@ == (if old(self)@.active {
                WindowDragStateView { position: Some(position), ..old(self)@ }
            } else {
                old(self)@
            }),
    {
        if !self.active {
            return;
        }
        self.position = Some(position);
    }

    /// The data of the drag numbered `serial` could not be had: the drag ends
    /// if it is still the one waiting for its data.
    pub fn ignore(&mut self, serial: u64)
        ensures
            final(self)@ == (if old(self)@.is_pending_enter(serial) {
                old(self)@.after_reset()
            } else {
                old(self)@
            }),
    {
        if self.active && self.serial == serial && self.transfer_id.is_none() {
            self.reset();
        }
    }

    /// The drag ended.
    pub fn reset(&mut self)
        ensures
            final(self)@ == old(self)@.after_reset(),
    {
        self.active = false;
        self.position = None;
        self.transfer_id = None;
    }
}

impl<Pos: Copy> Default for WindowDragState<Pos> {
    fn default() -> (state: Self)
        ensures
            state@ == (WindowDragStateView::<Pos> {
                active: false,
                serial: 0,
                position: None,
                transfer_id: None,
            }),
    {
        WindowDragState::new()
    }
}

/// Every change of the drag state keeps a position known exactly while a drag
/// is over the window.
pub proof fn lemma_changes_keep_consistency<Pos>(
    state: WindowDragStateView<Pos>,
    position: Pos,
    serial: u64,
    id: DataTransferId,
)
    requires
        state.is_consistent(),
    ensures
        state.after_start(position).is_consistent(),
        state.after_reset().is_consistent(),
        (WindowDragStateView { transfer_id: Some(id), ..state }).is_consistent(),
        (if state.active {
            WindowDragStateView { position: Some(position), ..state }
        } else {
            state
        }).is_consistent(),
        (if state.is_pending_enter(serial) {
            state.after_reset()
        } else {
            state
        }).is_consistent(),
{
}

/// A drag that just entered waits for its data under the serial number that
/// `start` returned, and once a newer drag entered, the older one no longer
/// does: its data, when it comes, is ignored.
pub proof fn lemma_only_the_latest_enter_is_pending<Pos>(
    state: WindowDragStateView<Pos>,
    first: Pos,
    second: Pos,
)
    ensures
        state.after_start(first).is_pending_enter(state.after_start(first).serial),
        !state.after_start(first).after_start(second).is_pending_enter(
            state.after_start(first).serial,
        ),
{
}

/// Once a drag has ended, no drag waits for its data.
pub proof fn lemma_reset_leaves_nothing_pending<Pos>(state: WindowDragStateView<Pos>, serial: u64)
    ensures
        !state.after_reset().is_pending_enter(serial),
        state.after_reset().transfer_id is None,
{
}

} // verus!
