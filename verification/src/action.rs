//! Layouting actions and their textual encodings.
//!
//! An action is one primitive layout instruction. It carries no behavior
//! beyond its two textual projections: the compact wire form, meant for a
//! downstream parser, and a verbose diagnostic form for humans.

use vstd::prelude::*;

use crate::render::{
    dec_digits, fixed_pt, natural_pt, push_dec, push_fixed_pt, push_natural_pt,
};
use crate::size::{Size, Size2D};

verus! {

/// The mathematical value of a layouting action: positions, extents and
/// font sizes counted in ten-thousandths of a point.
pub enum ActionView {
    /// Move to an absolute position.
    Move { x: int, y: int },
    /// Set the font by table index and size.
    SetFont { index: nat, size: int },
    /// Write text starting at the current position.
    Write { text: Seq<char> },
    /// A diagnostic rectangle: position and extent.
    DebugBox { x: int, y: int, w: int, h: int },
}

/// A layouting action.
#[derive(Clone)]
pub enum LayoutAction {
    /// Move to an absolute position.
    MoveAbsolute(Size2D),
    /// Set the font by index and font size.
    SetFont(usize, Size),
    /// Write text starting at the current position.
    WriteText(String),
    /// Visualize a box for debugging purposes.
    /// The arguments are position and size.
    DebugBox(Size2D, Size2D),
}

impl View for LayoutAction {
    type V = ActionView;

    open spec fn view(&self) -> ActionView {
        match self {
            LayoutAction::MoveAbsolute(p) => ActionView::Move { x: p@.0, y: p@.1 },
            LayoutAction::SetFont(i, s) => ActionView::SetFont { index: *i as nat, size: s@ },
            LayoutAction::WriteText(t) => ActionView::Write { text: t@ },
            LayoutAction::DebugBox(p, s) => ActionView::DebugBox {
                x: p@.0,
                y: p@.1,
                w: s@.0,
                h: s@.1,
            },
        }
    }
}

/// The compact wire encoding of an action: a single-letter opcode and
/// space-separated operands. Positions and extents use exactly four
/// fractional digits; the font size uses its natural rendering and the
/// text payload is emitted verbatim.
pub open spec fn spec_serialize(a: ActionView) -> Seq<char> {
    match a {
        ActionView::Move { x, y } => seq!['m', ' '] + fixed_pt(x) + seq![' '] + fixed_pt(y),
        ActionView::SetFont { index, size } => seq!['f', ' '] + dec_digits(index) + seq![' ']
            + natural_pt(size),
        ActionView::Write { text } => seq!['w', ' '] + text,
        ActionView::DebugBox { x, y, w, h } => seq!['b', ' '] + fixed_pt(x) + seq![' ']
            + fixed_pt(y) + seq![' '] + fixed_pt(w) + seq![' '] + fixed_pt(h),
    }
}

/// The diagnostic rendering of an action: a spelled-out opcode with
/// natural-form numbers, not meant for round-trip parsing.
pub open spec fn spec_display(a: ActionView) -> Seq<char> {
    match a {
        ActionView::Move { x, y } => seq!['m', 'o', 'v', 'e', ' '] + natural_pt(x) + seq![' ']
            + natural_pt(y),
        ActionView::SetFont { index, size } => seq!['f', 'o', 'n', 't', ' '] + dec_digits(index)
            + seq![' '] + natural_pt(size),
        ActionView::Write { text } => seq!['w', 'r', 'i', 't', 'e', ' ', '"'] + text + seq!['"'],
        ActionView::DebugBox { x, y, w, h } => seq!['b', 'o', 'x', ' '] + natural_pt(x)
            + seq![' '] + natural_pt(y) + seq![' '] + natural_pt(w) + seq![' '] + natural_pt(h),
    }
}

impl LayoutAction {
    /// Serialize this layout action into an easy-to-parse string
    /// representation.
    pub fn serialize(&self) -> (r: String)
        ensures
            r@ == spec_serialize(self@),
    {
        let mut out = String::new();
        proof {
            reveal_strlit(" ");
            assert(" "@ =~= seq![' ']);
        }
        match self {
            LayoutAction::MoveAbsolute(p) => {
                proof {
                    reveal_strlit("m ");
                    assert("m "@ =~= seq!['m', ' ']);
                }
                out.append("m ");
                push_fixed_pt(&mut out, p.x.units);
                out.append(" ");
                push_fixed_pt(&mut out, p.y.units);
            }
            LayoutAction::SetFont(i, s) => {
                proof {
                    reveal_strlit("f ");
                    assert("f "@ =~= seq!['f', ' ']);
                }
                out.append("f ");
                push_dec(&mut out, *i as u64);
                out.append(" ");
                push_natural_pt(&mut out, s.units);
            }
            LayoutAction::WriteText(t) => {
                proof {
                    reveal_strlit("w ");
                    assert("w "@ =~= seq!['w', ' ']);
                }
                out.append("w ");
                out.append(t.as_str());
            }
            LayoutAction::DebugBox(p, s) => {
                proof {
                    reveal_strlit("b ");
                    assert("b "@ =~= seq!['b', ' ']);
                }
                out.append("b ");
                push_fixed_pt(&mut out, p.x.units);
                out.append(" ");
                push_fixed_pt(&mut out, p.y.units);
                out.append(" ");
                push_fixed_pt(&mut out, s.x.units);
                out.append(" ");
                push_fixed_pt(&mut out, s.y.units);
            }
        }
        proof {
            assert(out@ =~= spec_serialize(self@));
        }
        out
    }

    /// Render this action in its human-oriented diagnostic form.
    pub fn display_string(&self) -> (r: String)
        ensures
            r@ == spec_display(self@),
    {
        let mut out = String::new();
        proof {
            reveal_strlit(" ");
            assert(" "@ =~= seq![' ']);
        }
        match self {
            LayoutAction::MoveAbsolute(p) => {
                proof {
                    reveal_strlit("move ");
                    assert("move "@ =~= seq!['m', 'o', 'v', 'e', ' ']);
                }
                out.append("move ");
                push_natural_pt(&mut out, p.x.units);
                out.append(" ");
                push_natural_pt(&mut out, p.y.units);
            }
            LayoutAction::SetFont(i, s) => {
                proof {
                    reveal_strlit("font ");
                    assert("font "@ =~= seq!['f', 'o', 'n', 't', ' ']);
                }
                out.append("font ");
                push_dec(&mut out, *i as u64);
                out.append(" ");
                push_natural_pt(&mut out, s.units);
            }
            LayoutAction::WriteText(t) => {
                proof {
                    reveal_strlit("write \"");
                    assert("write \""@ =~= seq!['w', 'r', 'i', 't', 'e', ' ', '"']);
                    reveal_strlit("\"");
                    assert("\""@ =~= seq!['"']);
                }
                out.append("write \"");
                out.append(t.as_str());
                out.append("\"");
            }
            LayoutAction::DebugBox(p, s) => {
                proof {
                    reveal_strlit("box ");
                    assert("box "@ =~= seq!['b', 'o', 'x', ' ']);
                }
                out.append("box ");
                push_natural_pt(&mut out, p.x.units);
                out.append(" ");
                push_natural_pt(&mut out, p.y.units);
                out.append(" ");
                push_natural_pt(&mut out, s.x.units);
                out.append(" ");
                push_natural_pt(&mut out, s.y.units);
            }
        }
        proof {
            assert(out@ =~= spec_display(self@));
        }
        out
    }
}

} // verus!
