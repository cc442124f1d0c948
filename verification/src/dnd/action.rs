//! Drag-and-drop actions: the windowing layer's `DndAction` and GDK's set of
//! action flags, and the conversions between them.

use vstd::prelude::*;

verus! {

/// GDK's flag for copying the dragged data.
pub const ACTION_COPY: u32 = 1;

/// GDK's flag for moving the dragged data.
pub const ACTION_MOVE: u32 = 2;

/// GDK's flag for linking to the dragged data.
pub const ACTION_LINK: u32 = 4;

/// GDK's flag for asking the user what to do with the dragged data.
pub const ACTION_ASK: u32 = 8;

/// A set of GDK drag actions, as the bits of GDK's `GdkDragAction`.
#[derive(Clone, Copy, Debug, PartialEq, Eq, Hash, Structural)]
pub struct DragAction {
    pub bits: u32,
}

/// What a drag-and-drop operation does with the data.
#[derive(Clone, Copy, Debug, PartialEq, Eq, Hash, Structural)]
pub enum DndAction {
    Move,
    Copy,
    Link,
    Ask,
    /// An action private to the application, with no GDK counterpart.
    Private,
}

/// `flag` is set in `bits`, as bitflags' `contains` tests it.
pub open spec fn has_flags(bits: u32, flag: u32) -> bool {
    bits & flag == flag
}

/// `bits` and `other` share a set flag, as bitflags' `intersects` tests it.
pub open spec fn shares_flags(bits: u32, other: u32) -> bool {
    bits & other != 0
}

/// The GDK flag of an action; none for a private action.
pub open spec fn action_flag(action: DndAction) -> u32 {
    match action {
        DndAction::Move => ACTION_MOVE,
        DndAction::Copy => ACTION_COPY,
        DndAction::Link => ACTION_LINK,
        DndAction::Ask => ACTION_ASK,
        DndAction::Private => 0,
    }
}

/// The one action that a set of GDK flags stands for: move before copy before
/// link before ask, and none when none of these is set.
pub open spec fn preferred_action(bits: u32) -> Option<DndAction> {
    if has_flags(bits, ACTION_MOVE) {
        Some(DndAction::Move)
    } else if has_flags(bits, ACTION_COPY) {
        Some(DndAction::Copy)
    } else if has_flags(bits, ACTION_LINK) {
        Some(DndAction::Link)
    } else if has_flags(bits, ACTION_ASK) {
        Some(DndAction::Ask)
    } else {
        None
    }
}

/// The union of the GDK flags of `actions`.
pub open spec fn actions_flags(actions: Seq<DndAction>) -> u32
    decreases actions.len(),
{
    if actions.len() == 0 {
        0
    } else {
        actions_flags(actions.drop_last()) | action_flag(actions.last())
    }
}

impl DragAction {
    /// The empty set of actions.
    pub fn empty() -> (set: Self)
        ensures
            set.bits == 0,
    {
        DragAction { bits: 0 }
    }

    /// Every flag of `other` is set in `self`.
    pub fn contains(self, other: Self) -> (b: bool)
        ensures
            b == has_flags(self.bits, other.bits),
    {
        self.bits & other.bits == other.bits
    }

    /// `self` and `other` share a flag.
    pub fn intersects(self, other: Self) -> (b: bool)
        ensures
            b == shares_flags(self.bits, other.bits),
    {
        self.bits & other.bits != 0
    }

    /// The flags of both sets.
    pub fn union(self, other: Self) -> (set: Self)
        ensures
            set.bits == self.bits | other.bits,
    {
        DragAction { bits: self.bits | other.bits }
    }
}

/// The GDK flag of `action`; the empty set for a private action.
pub fn dnd_action_winit_to_gdk(action: DndAction) -> (set: DragAction)
    ensures
        set.bits == action_flag(action),
{
    match action {
        DndAction::Move => DragAction { bits: ACTION_MOVE },
        DndAction::Copy => DragAction { bits: ACTION_COPY },
        DndAction::Link => DragAction { bits: ACTION_LINK },
        DndAction::Ask => DragAction { bits: ACTION_ASK },
        DndAction::Private => DragAction::empty(),
    }
}

/// The action that a set of GDK flags stands for, if any.
pub fn dnd_action_gdk_to_winit(set: DragAction) -> (action: Option<DndAction>)
    ensures
        action == preferred_action(set.bits),
{
    if set.contains(DragAction { bits: ACTION_MOVE }) {
        Some(DndAction::Move)
    } else if set.contains(DragAction { bits: ACTION_COPY }) {
        Some(DndAction::Copy)
    } else if set.contains(DragAction { bits: ACTION_LINK }) {
        Some(DndAction::Link)
    } else if set.contains(DragAction { bits: ACTION_ASK }) {
        Some(DndAction::Ask)
    } else {
        None
    }
}

/// The set of the GDK flags of all of `actions`.
pub fn dnd_actions_to_gdk(actions: &[DndAction]) -> (set: DragAction)
    ensures
        set.bits == actions_flags(actions@),
{
    let mut set = DragAction::empty();
    let mut i: usize = 0;
    while i < actions.len()
        invariant
            i <= actions.len(),
            set.bits == actions_flags(actions@.subrange(0, i as int)),
        decreases actions.len() - i,
    {
        let flag = dnd_action_winit_to_gdk(actions[i]);
        set = set.union(flag);
        assert(actions@.subrange(0, i + 1).drop_last() =~= actions@.subrange(0, i as int));
        i = i + 1;
    }
    assert(actions@.subrange(0, actions.len() as int) =~= actions@);
    set
}

/// Facts about the four GDK flags that the proofs below rest on.
proof fn lemma_flag_arithmetic(x: u32, y: u32)
    by (bit_vector)
    ensures
        x & 0 == 0,
        (x | y) & y == y,
        (x | y) & x == x,
        2u32 & 2u32 == 2u32,
        1u32 & 2u32 != 2u32,
        1u32 & 1u32 == 1u32,
        4u32 & 2u32 != 2u32,
        4u32 & 1u32 != 1u32,
        4u32 & 4u32 == 4u32,
        8u32 & 2u32 != 2u32,
        8u32 & 1u32 != 1u32,
        8u32 & 4u32 != 4u32,
        8u32 & 8u32 == 8u32,
        0u32 & 2u32 != 2u32,
        0u32 & 1u32 != 1u32,
        0u32 & 4u32 != 4u32,
        0u32 & 8u32 != 8u32,
{
}

/// Converting an action to its GDK flag and back gives the action again; a
/// private action, which has no flag, comes back as no action.
pub proof fn lemma_action_flag_round_trip(action: DndAction)
    ensures
        preferred_action(action_flag(action)) == (if action == DndAction::Private {
            None
        } else {
            Some(action)
        }),
{
    lemma_flag_arithmetic(0, 0);
}

/// A private action shares no flag with any set of flags.
pub proof fn lemma_private_action_shares_nothing(bits: u32)
    ensures
        !shares_flags(bits, action_flag(DndAction::Private)),
{
    lemma_flag_arithmetic(bits, 0);
}

/// The union of the flags of a list of actions holds the flag of each of them.
pub proof fn lemma_actions_flags_contain_each(actions: Seq<DndAction>, i: int)
    requires
        0 <= i < actions.len(),
    ensures
        has_flags(actions_flags(actions), action_flag(actions[i])),
    decreases actions.len(),
{
    let rest = actions.drop_last();
    if i == actions.len() - 1 {
        lemma_flag_arithmetic(actions_flags(rest), action_flag(actions.last()));
    } else {
        lemma_actions_flags_contain_each(rest, i);
        let r = actions_flags(rest);
        let f = action_flag(actions[i]);
        let l = action_flag(actions.last());
        assert(r & f == f ==> (r | l) & f == f) by (bit_vector);
    }
}

} // verus!
