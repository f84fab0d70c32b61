//! The action buffer: an optimizing, order-preserving accumulator.
//!
//! Configuration actions (moves, font changes) are cached rather than
//! committed; only the latest cached value survives, and it is flushed
//! exactly when content is written. Debug boxes commit immediately and
//! bypass the cache. A sub-layout composes at a position by rebinding the
//! buffer's origin, which re-anchors every move inside it.
//!
//! The whole behavior is specified by the transition functions
//! [`add_spec`], [`add_all_spec`] and [`add_layout_spec`] over the
//! buffer's mathematical state, [`ListView`].

use vstd::prelude::*;

use crate::action::{ActionView, LayoutAction};
use crate::size::{fits_units, Size, Size2D};

verus! {

/// The mathematical state of an action buffer.
#[verifier::ext_equal]
pub struct ListView {
    /// The active coordinate-frame translation.
    pub origin: (int, int),
    /// The committed actions, in order; append-only.
    pub committed: Seq<ActionView>,
    /// The font believed active in the committed stream.
    pub active_font: (nat, int),
    /// A cached absolute move, not yet committed.
    pub pending_move: Option<(int, int)>,
    /// A cached font change, not yet committed.
    pub pending_font: Option<(nat, int)>,
}

/// The mathematical value of a sub-layout: its local action sequence,
/// its bounding size, and whether to draw a debug overlay for it.
#[verifier::ext_equal]
pub struct LayoutView {
    /// The sub-layout's actions, in its local coordinate frame.
    pub actions: Seq<ActionView>,
    /// The sub-layout's bounding size.
    pub dims: (int, int),
    /// Whether a debug box is drawn around the sub-layout.
    pub debug_render: bool,
}

/// The action sequence a sequence of actions stands for.
pub open spec fn views_of(s: Seq<LayoutAction>) -> Seq<ActionView> {
    s.map_values(|a: LayoutAction| a@)
}

/// The state of a freshly created buffer: empty, origin at zero, and a
/// sentinel active font (maximal index, zero size) that no real font
/// equals, so the first font change is never spuriously dropped.
pub open spec fn empty_list_view() -> ListView {
    ListView {
        origin: (0, 0),
        committed: Seq::empty(),
        active_font: (usize::MAX as nat, 0),
        pending_move: None,
        pending_font: None,
    }
}

/// Commit the cached move, if one is cached.
pub open spec fn flush_move_spec(b: ListView) -> ListView {
    match b.pending_move {
        Some(p) => ListView {
            committed: b.committed.push(ActionView::Move { x: p.0, y: p.1 }),
            pending_move: None,
            ..b
        },
        None => b,
    }
}

/// Commit the cached font change, if one is cached and it differs from
/// the active font; an already-active font is discarded silently.
pub open spec fn flush_font_spec(b: ListView) -> ListView {
    match b.pending_font {
        Some(f) => if f == b.active_font {
            ListView { pending_font: None, ..b }
        } else {
            ListView {
                committed: b.committed.push(ActionView::SetFont { index: f.0, size: f.1 }),
                active_font: f,
                pending_font: None,
                ..b
            }
        },
        None => b,
    }
}

/// One step of the buffer: what appending a single action does.
///
/// Moves and font changes only overwrite the respective cache, a debug
/// box commits immediately in origin-translated coordinates without
/// touching the caches, and written text first flushes the cached move,
/// then the cached font, then commits itself.
pub open spec fn add_spec(b: ListView, a: ActionView) -> ListView {
    match a {
        ActionView::Move { x, y } => ListView {
            pending_move: Some((b.origin.0 + x, b.origin.1 + y)),
            ..b
        },
        ActionView::SetFont { index, size } => ListView {
            pending_font: Some((index, size)),
            ..b
        },
        ActionView::DebugBox { x, y, w, h } => ListView {
            committed: b.committed.push(
                ActionView::DebugBox { x: b.origin.0 + x, y: b.origin.1 + y, w, h },
            ),
            ..b
        },
        ActionView::Write { text } => {
            let flushed = flush_font_spec(flush_move_spec(b));
            ListView {
                committed: flushed.committed.push(ActionView::Write { text }),
                ..flushed
            }
        },
    }
}

/// Appending a whole sequence of actions, one at a time, in order.
pub open spec fn add_all_spec(b: ListView, acts: Seq<ActionView>) -> ListView
    decreases acts.len(),
{
    if acts.len() == 0 {
        b
    } else {
        add_all_spec(add_spec(b, acts[0]), acts.drop_first())
    }
}

/// The state of the buffer right before a composed sub-layout's own
/// actions are appended: the previous frame's cached move is flushed,
/// the origin is rebound to the anchor position, a move to the anchor is
/// cached, and the sub-layout's debug box is committed if requested.
pub open spec fn rebase_spec(b: ListView, pos: (int, int), l: LayoutView) -> ListView {
    let flushed = flush_move_spec(b);
    let rebased = ListView { origin: pos, pending_move: Some(pos), ..flushed };
    if l.debug_render {
        ListView {
            committed: rebased.committed.push(
                ActionView::DebugBox { x: pos.0, y: pos.1, w: l.dims.0, h: l.dims.1 },
            ),
            ..rebased
        }
    } else {
        rebased
    }
}

/// Composing a sub-layout at an absolute position: rebind the frame as
/// in [`rebase_spec`], then append all of the sub-layout's actions in
/// the new frame.
pub open spec fn add_layout_spec(b: ListView, pos: (int, int), l: LayoutView) -> ListView {
    add_all_spec(rebase_spec(b, pos, l), l.actions)
}

/// Whether the origin-translated coordinates of one action fit into the
/// machine representation of a length.
pub open spec fn act_in_bounds(origin: (int, int), a: ActionView) -> bool {
    match a {
        ActionView::Move { x, y } => fits_units(origin.0 + x) && fits_units(origin.1 + y),
        ActionView::DebugBox { x, y, w, h } => fits_units(origin.0 + x) && fits_units(
            origin.1 + y,
        ),
        _ => true,
    }
}

/// [`act_in_bounds`] for every action of a sequence.
pub open spec fn all_in_bounds(origin: (int, int), acts: Seq<ActionView>) -> bool {
    forall|i: int| 0 <= i < acts.len() ==> act_in_bounds(origin, acts[i])
}

/// An externally supplied, already-built sub-layout, consumed through its
/// action sequence, its bounding size and its debug-visualization flag.
pub struct Layout {
    /// The sub-layout's actions, in its local coordinate frame.
    pub actions: Vec<LayoutAction>,
    /// The sub-layout's bounding size.
    pub dimensions: Size2D,
    /// Whether a debug box should be drawn around this layout.
    pub debug_render: bool,
}

impl View for Layout {
    type V = LayoutView;

    open spec fn view(&self) -> LayoutView {
        LayoutView {
            actions: views_of(self.actions@),
            dims: self.dimensions@,
            debug_render: self.debug_render,
        }
    }
}

/// A sequence of layouting actions.
///
/// The sequence of actions is optimized as the actions are added. For
/// example, a font changing action will only be added if the selected
/// font is not already active. All configuration actions (like moving,
/// setting fonts, ...) are only flushed when content is written.
///
/// Furthermore, the action list can translate absolute positions into a
/// coordinate system with a different origin: `add_layout` places a
/// layout at a position, effectively translating all movement actions
/// inside the layout by that position.
pub struct LayoutActionList {
    /// The active coordinate-frame translation.
    pub origin: Size2D,
    actions: Vec<LayoutAction>,
    active_font_index: usize,
    active_font_size: Size,
    next_pos: Option<Size2D>,
    next_font: Option<(usize, Size)>,
}

impl View for LayoutActionList {
    type V = ListView;

    closed spec fn view(&self) -> ListView {
        ListView {
            origin: self.origin@,
            committed: views_of(self.actions@),
            active_font: (self.active_font_index as nat, self.active_font_size@),
            pending_move: match self.next_pos {
                Some(p) => Some(p@),
                None => None,
            },
            pending_font: match self.next_font {
                Some(f) => Some((f.0 as nat, f.1@)),
                None => None,
            },
        }
    }
}

impl LayoutActionList {
    /// Create a new action list.
    pub fn new() -> (r: LayoutActionList)
        ensures
            r@ == empty_list_view(),
    {
        let r = LayoutActionList {
            actions: Vec::new(),
            origin: Size2D::zero(),
            active_font_index: usize::MAX,
            active_font_size: Size::zero(),
            next_pos: None,
            next_font: None,
        };
        proof {
            assert(r@ =~= empty_list_view());
        }
        r
    }

    /// Add an action to the list.
    pub fn add(&mut self, action: LayoutAction)
        requires
            act_in_bounds(old(self)@.origin, action@),
        ensures
            final(self)@ == add_spec(old(self)@, action@),
    {
        let ghost av = action@;
        match action {
            LayoutAction::MoveAbsolute(pos) => {
                self.next_pos = Some(self.origin.offset(pos));
            }
            LayoutAction::DebugBox(pos, size) => {
                let translated = self.origin.offset(pos);
                self.actions.push(LayoutAction::DebugBox(translated, size));
            }
            LayoutAction::SetFont(index, size) => {
                self.next_font = Some((index, size));
            }
            LayoutAction::WriteText(text) => {
                self.flush_position();
                self.flush_font();
                self.actions.push(LayoutAction::WriteText(text));
            }
        }
        proof {
            assert(self@ =~= add_spec(old(self)@, av));
        }
    }

    /// Add a series of actions.
    pub fn extend(&mut self, actions: Vec<LayoutAction>)
        requires
            all_in_bounds(old(self)@.origin, views_of(actions@)),
        ensures
            final(self)@ == add_all_spec(old(self)@, views_of(actions@)),
    {
        let ghost all = views_of(actions@);
        let mut rest = actions;
        while rest.len() > 0
            invariant
                self@.origin == old(self)@.origin,
                all_in_bounds(self@.origin, views_of(rest@)),
                add_all_spec(self@, views_of(rest@)) == add_all_spec(old(self)@, all),
            decreases rest.len(),
        {
            let ghost before = views_of(rest@);
            let a = rest.remove(0);
            proof {
                assert(views_of(rest@) =~= before.drop_first());
                assert(before[0] == a@);
            }
            self.add(a);
        }
        proof {
            assert(views_of(rest@) =~= Seq::<ActionView>::empty());
        }
    }

    /// Add a layout at a position. All move actions inside the layout are
    /// translated by the position.
    pub fn add_layout(&mut self, position: Size2D, layout: Layout)
        requires
            all_in_bounds(position@, layout@.actions),
        ensures
            final(self)@ == add_layout_spec(old(self)@, position@, layout@),
    {
        let ghost lv = layout@;
        self.flush_position();

        self.origin = position;
        self.next_pos = Some(position);

        if layout.debug_render {
            self.actions.push(LayoutAction::DebugBox(position, layout.dimensions));
        }
        proof {
            assert(self@ =~= rebase_spec(old(self)@, position@, lv));
        }
        self.extend(layout.actions);
    }

    /// Whether there are any committed actions in this list.
    pub fn is_empty(&self) -> (r: bool)
        ensures
            r == (self@.committed.len() == 0),
    {
        self.actions.is_empty()
    }

    /// Return the list of committed actions as a vector.
    pub fn into_vec(self) -> (r: Vec<LayoutAction>)
        ensures
            views_of(r@) == self@.committed,
    {
        self.actions
    }

    /// Append the cached move action if one is cached.
    fn flush_position(&mut self)
        ensures
            final(self)@ == flush_move_spec(old(self)@),
    {
        match self.next_pos {
            Some(target) => {
                self.next_pos = None;
                self.actions.push(LayoutAction::MoveAbsolute(target));
                proof {
                    assert(self@ =~= flush_move_spec(old(self)@));
                }
            }
            None => {}
        }
    }

    /// Append the cached font-setting action if one is cached and not
    /// already active.
    fn flush_font(&mut self)
        ensures
            final(self)@ == flush_font_spec(old(self)@),
    {
        match self.next_font {
            Some(f) => {
                self.next_font = None;
                let (index, size) = f;
                if index != self.active_font_index || size.units != self.active_font_size.units {
                    self.actions.push(LayoutAction::SetFont(index, size));
                    self.active_font_index = index;
                    self.active_font_size = size;
                }
                proof {
                    assert(self@ =~= flush_font_spec(old(self)@));
                }
            }
            None => {}
        }
    }
}

} // verus!
