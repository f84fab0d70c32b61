//! Laws of the action buffer, stated over its transition functions and
//! proved once and for all.
//!
//! Each public proof function here states a guarantee of the buffer for
//! every state and every input, over the same spec functions that the
//! executable methods' contracts use.

use vstd::prelude::*;

use crate::action::ActionView;
use crate::buffer::{
    add_all_spec, add_layout_spec, add_spec, flush_font_spec, flush_move_spec, rebase_spec,
    LayoutView, ListView,
};

verus! {

/// Whether flushing the cached font would commit nothing: no font change
/// is cached, or the cached one is already active.
pub open spec fn no_effective_pending_font(b: ListView) -> bool {
    match b.pending_font {
        None => true,
        Some(f) => f == b.active_font,
    }
}

/// One appended action extends the committed sequence without touching
/// what was already committed.
pub proof fn lemma_add_extends_committed(b: ListView, a: ActionView)
    ensures
        add_spec(b, a).committed.len() >= b.committed.len(),
        forall|i: int|
            0 <= i < b.committed.len() ==> add_spec(b, a).committed[i] == b.committed[i],
{
}

/// A whole appended sequence extends the committed sequence without
/// touching what was already committed: committed actions are never
/// reordered or removed.
pub proof fn lemma_add_all_extends_committed(b: ListView, acts: Seq<ActionView>)
    ensures
        add_all_spec(b, acts).committed.len() >= b.committed.len(),
        forall|i: int|
            0 <= i < b.committed.len() ==> add_all_spec(b, acts).committed[i] == b.committed[i],
    decreases acts.len(),
{
    if acts.len() > 0 {
        lemma_add_extends_committed(b, acts[0]);
        lemma_add_all_extends_committed(add_spec(b, acts[0]), acts.drop_first());
    }
}

/// Appending never moves the coordinate origin; only composing a layout
/// rebinds it.
pub proof fn lemma_add_all_preserves_origin(b: ListView, acts: Seq<ActionView>)
    ensures
        add_all_spec(b, acts).origin == b.origin,
    decreases acts.len(),
{
    if acts.len() > 0 {
        lemma_add_all_preserves_origin(add_spec(b, acts[0]), acts.drop_first());
    }
}

/// Appending a concatenation is appending the two parts in turn.
pub proof fn lemma_add_all_app(b: ListView, s1: Seq<ActionView>, s2: Seq<ActionView>)
    ensures
        add_all_spec(b, s1 + s2) == add_all_spec(add_all_spec(b, s1), s2),
    decreases s1.len(),
{
    if s1.len() == 0 {
        assert(s1 + s2 =~= s2);
    } else {
        assert((s1 + s2)[0] == s1[0]);
        assert((s1 + s2).drop_first() =~= s1.drop_first() + s2);
        lemma_add_all_app(add_spec(b, s1[0]), s1.drop_first(), s2);
    }
}

/// Law: in a run of moves with no intervening content action, each move
/// only overwrites the cache. Nothing is committed, nothing else in the
/// buffer changes, and the cache holds the last move's origin-translated
/// position — every earlier one is silently superseded.
pub proof fn lemma_moves_supersede(b: ListView, moves: Seq<ActionView>)
    requires
        forall|i: int| 0 <= i < moves.len() ==> moves[i] is Move,
    ensures
        add_all_spec(b, moves).committed == b.committed,
        add_all_spec(b, moves).origin == b.origin,
        add_all_spec(b, moves).active_font == b.active_font,
        add_all_spec(b, moves).pending_font == b.pending_font,
        moves.len() == 0 ==> add_all_spec(b, moves).pending_move == b.pending_move,
        moves.len() > 0 ==> add_all_spec(b, moves).pending_move == Some(
            (b.origin.0 + moves.last()->Move_x, b.origin.1 + moves.last()->Move_y),
        ),
    decreases moves.len(),
{
    if moves.len() > 0 {
        assert(moves[0] is Move);
        lemma_moves_supersede(add_spec(b, moves[0]), moves.drop_first());
        if moves.len() > 1 {
            assert(moves.drop_first().last() == moves.last());
        }
    }
}

/// Law: writing content after a run of moves commits exactly the last
/// move's translated position, immediately followed by the written text
/// — provided no effective font change is cached, which would otherwise
/// be committed in between.
pub proof fn lemma_write_commits_last_move(b: ListView, moves: Seq<ActionView>, text: Seq<char>)
    requires
        moves.len() > 0,
        forall|i: int| 0 <= i < moves.len() ==> moves[i] is Move,
        no_effective_pending_font(b),
    ensures
        add_spec(add_all_spec(b, moves), ActionView::Write { text }).committed == b.committed.push(
            ActionView::Move {
                x: b.origin.0 + moves.last()->Move_x,
                y: b.origin.1 + moves.last()->Move_y,
            },
        ).push(ActionView::Write { text }),
{
    lemma_moves_supersede(b, moves);
}

/// Law: in a run of font changes with no intervening content action,
/// each change only overwrites the cache: nothing is committed, nothing
/// else in the buffer changes, and only the last (index, size) pair is
/// still under consideration.
pub proof fn lemma_fonts_supersede(b: ListView, fonts: Seq<ActionView>)
    requires
        forall|i: int| 0 <= i < fonts.len() ==> fonts[i] is SetFont,
    ensures
        add_all_spec(b, fonts).committed == b.committed,
        add_all_spec(b, fonts).origin == b.origin,
        add_all_spec(b, fonts).active_font == b.active_font,
        add_all_spec(b, fonts).pending_move == b.pending_move,
        fonts.len() == 0 ==> add_all_spec(b, fonts).pending_font == b.pending_font,
        fonts.len() > 0 ==> add_all_spec(b, fonts).pending_font == Some(
            (fonts.last()->SetFont_index, fonts.last()->SetFont_size),
        ),
    decreases fonts.len(),
{
    if fonts.len() > 0 {
        lemma_fonts_supersede(add_spec(b, fonts[0]), fonts.drop_first());
        if fonts.len() > 1 {
            assert(fonts.drop_first().last() == fonts.last());
        }
    }
}

/// Law: a cached font change is committed at flush time exactly when it
/// differs from the active font; an already-active font is dropped.
pub proof fn lemma_flush_commits_font_iff_different(b: ListView)
    ensures
        b.pending_font matches Some(f) ==> (if f == b.active_font {
            flush_font_spec(b).committed == b.committed && flush_font_spec(b).active_font
                == b.active_font
        } else {
            flush_font_spec(b).committed == b.committed.push(
                ActionView::SetFont { index: f.0, size: f.1 },
            ) && flush_font_spec(b).active_font == f
        }),
        b.pending_font is None ==> flush_font_spec(b) == b,
        flush_font_spec(b).pending_font is None,
{
}

/// Law: across repeated content actions, a font is committed at most
/// once. Setting a font, writing, setting the same font again and
/// writing again commits the font change exactly once when it was not
/// active before, and never when it already was.
pub proof fn lemma_font_committed_at_most_once(
    b: ListView,
    index: nat,
    size: int,
    t1: Seq<char>,
    t2: Seq<char>,
)
    ensures
        ({
            let s4 = add_spec(
                add_spec(
                    add_spec(
                        add_spec(b, ActionView::SetFont { index, size }),
                        ActionView::Write { text: t1 },
                    ),
                    ActionView::SetFont { index, size },
                ),
                ActionView::Write { text: t2 },
            );
            &&& (index, size) == b.active_font ==> s4.committed == flush_move_spec(
                b,
            ).committed.push(ActionView::Write { text: t1 }).push(ActionView::Write { text: t2 })
            &&& (index, size) != b.active_font ==> s4.committed == flush_move_spec(
                b,
            ).committed.push(ActionView::SetFont { index: index, size: size }).push(
                ActionView::Write { text: t1 },
            ).push(ActionView::Write { text: t2 })
        }),
{
}

/// Law: a debug box is a side channel. It commits immediately, in
/// origin-translated coordinates, and leaves the cached move, the cached
/// font, the active font and the origin untouched, so it neither commits
/// nor discards pending state.
pub proof fn lemma_debug_box_bypasses_caches(b: ListView, x: int, y: int, w: int, h: int)
    ensures
        ({
            let after = add_spec(b, ActionView::DebugBox { x, y, w, h });
            &&& after.committed == b.committed.push(
                ActionView::DebugBox { x: b.origin.0 + x, y: b.origin.1 + y, w, h },
            )
            &&& after.pending_move == b.pending_move
            &&& after.pending_font == b.pending_font
            &&& after.active_font == b.active_font
            &&& after.origin == b.origin
        }),
{
}

/// Law: a debug box committed between cached state and the content that
/// flushes it changes nothing downstream: the subsequent write still
/// flushes the previously cached state, and the resulting stream is the
/// same but for the box standing where it was committed.
pub proof fn lemma_debug_box_preserves_flush(b: ListView, x: int, y: int, w: int, h: int, text: Seq<char>)
    ensures
        ({
            let with_box = add_spec(
                add_spec(b, ActionView::DebugBox { x, y, w, h }),
                ActionView::Write { text },
            );
            let without = add_spec(b, ActionView::Write { text });
            let boxed = b.committed.push(
                ActionView::DebugBox { x: b.origin.0 + x, y: b.origin.1 + y, w, h },
            );
            &&& with_box.committed =~= boxed + without.committed.skip(b.committed.len() as int)
            &&& with_box.pending_move == without.pending_move
            &&& with_box.pending_font == without.pending_font
            &&& with_box.active_font == without.active_font
            &&& with_box.origin == without.origin
        }),
{
}

/// Law: caching alone never commits. A move or font append leaves the
/// committed sequence exactly as it was, so pending state alone never
/// makes the buffer non-empty.
pub proof fn lemma_caching_commits_nothing(b: ListView, a: ActionView)
    requires
        a is Move || a is SetFont,
    ensures
        add_spec(b, a).committed == b.committed,
{
}

/// Law: content always commits. Written text or a debug box strictly
/// extends the committed sequence, so the buffer is non-empty afterward.
pub proof fn lemma_content_commits(b: ListView, a: ActionView)
    requires
        a is Write || a is DebugBox,
    ensures
        add_spec(b, a).committed.len() > b.committed.len(),
{
}

/// Law: composing a sub-layout re-anchors its moves. If the sub-layout
/// holds a move immediately followed by written text, and no effective
/// font change is cached when the move is reached, then after composing
/// at an anchor position the committed stream holds a move to the
/// anchor-translated position immediately followed by that text.
pub proof fn lemma_compose_translates_moves(
    b: ListView,
    pos: (int, int),
    l: LayoutView,
    k: int,
)
    requires
        0 <= k,
        k + 1 < l.actions.len(),
        l.actions[k] is Move,
        l.actions[k + 1] is Write,
        no_effective_pending_font(add_all_spec(rebase_spec(b, pos, l), l.actions.take(k))),
    ensures
        ({
            let mid = add_all_spec(rebase_spec(b, pos, l), l.actions.take(k));
            let after = add_layout_spec(b, pos, l);
            let i = mid.committed.len() as int;
            &&& i + 1 < after.committed.len()
            &&& after.committed[i] == ActionView::Move {
                x: pos.0 + l.actions[k]->Move_x,
                y: pos.1 + l.actions[k]->Move_y,
            }
            &&& after.committed[i + 1] == ActionView::Write {
                text: l.actions[k + 1]->Write_text,
            }
        }),
{
    let start = rebase_spec(b, pos, l);
    let mid = add_all_spec(start, l.actions.take(k));
    let pair = seq![l.actions[k], l.actions[k + 1]];
    assert(l.actions =~= l.actions.take(k) + pair + l.actions.skip(k + 2));
    lemma_add_all_app(start, l.actions.take(k) + pair, l.actions.skip(k + 2));
    lemma_add_all_app(start, l.actions.take(k), pair);
    assert(add_all_spec(start, l.actions.take(k) + pair) == add_all_spec(mid, pair));
    lemma_add_all_preserves_origin(start, l.actions.take(k));
    assert(mid.origin == pos);
    let stepped = add_spec(add_spec(mid, l.actions[k]), l.actions[k + 1]);
    assert(pair[0] == l.actions[k]);
    assert(pair.drop_first() =~= seq![l.actions[k + 1]]);
    assert(pair.drop_first().drop_first() =~= Seq::<ActionView>::empty());
    let m1 = add_spec(mid, l.actions[k]);
    assert(add_all_spec(mid, pair) == add_all_spec(m1, pair.drop_first()));
    assert(add_all_spec(m1, pair.drop_first()) == add_all_spec(stepped, pair.drop_first().drop_first()));
    assert(add_all_spec(stepped, pair.drop_first().drop_first()) == stepped);
    assert(add_all_spec(mid, pair) == stepped);
    let i = mid.committed.len() as int;
    assert(stepped.committed[i] == ActionView::Move {
        x: pos.0 + l.actions[k]->Move_x,
        y: pos.1 + l.actions[k]->Move_y,
    });
    assert(stepped.committed[i + 1] == ActionView::Write { text: l.actions[k + 1]->Write_text });
    lemma_add_all_extends_committed(stepped, l.actions.skip(k + 2));
}

/// No font-set action stands in `s` strictly between positions `i` and `j`.
pub open spec fn no_font_between(s: Seq<ActionView>, i: int, j: int) -> bool {
    forall|k: int| i < k < j ==> !(s[k] is SetFont)
}

/// No two committed font-set actions with nothing but other actions
/// between them carry the same font.
pub open spec fn fonts_deduped(s: Seq<ActionView>) -> bool {
    forall|i: int, j: int|
        0 <= i < j < s.len() && s[i] is SetFont && s[j] is SetFont && no_font_between(s, i, j)
            ==> (s[i]->SetFont_index, s[i]->SetFont_size) != (
            s[j]->SetFont_index,
            s[j]->SetFont_size,
        )
}

/// `active` is the font that the last font-set action of `s`
/// established, when there is one.
pub open spec fn active_matches_last_font(s: Seq<ActionView>, active: (nat, int)) -> bool {
    forall|i: int|
        0 <= i < s.len() && s[i] is SetFont && no_font_between(s, i, s.len() as int) ==> active
            == (s[i]->SetFont_index, s[i]->SetFont_size)
}

/// Well-formedness of a buffer's committed stream: duplicate font
/// changes have been eliminated, and the recorded active font is the one
/// the stream last established.
pub open spec fn fonts_wf(b: ListView) -> bool {
    fonts_deduped(b.committed) && active_matches_last_font(b.committed, b.active_font)
}

/// Committing anything but a font-set action preserves font
/// well-formedness and keeps the active font meaningful.
proof fn lemma_push_non_font(s: Seq<ActionView>, active: (nat, int), x: ActionView)
    requires
        !(x is SetFont),
        fonts_deduped(s),
        active_matches_last_font(s, active),
    ensures
        fonts_deduped(s.push(x)),
        active_matches_last_font(s.push(x), active),
{
    let t = s.push(x);
    assert forall|i: int, j: int|
        0 <= i < j < t.len() && t[i] is SetFont && t[j] is SetFont && no_font_between(
            t,
            i,
            j,
        ) implies (t[i]->SetFont_index, t[i]->SetFont_size) != (
        t[j]->SetFont_index,
        t[j]->SetFont_size,
    ) by {
        assert(j < s.len());
        assert(no_font_between(s, i, j)) by {
            assert forall|k: int| i < k < j implies !(s[k] is SetFont) by {
                assert(t[k] == s[k]);
            }
        }
    }
    assert forall|i: int|
        0 <= i < t.len() && t[i] is SetFont && no_font_between(
            t,
            i,
            t.len() as int,
        ) implies active == (t[i]->SetFont_index, t[i]->SetFont_size) by {
        assert(i < s.len());
        assert(no_font_between(s, i, s.len() as int)) by {
            assert forall|k: int| i < k < s.len() implies !(s[k] is SetFont) by {
                assert(t[k] == s[k]);
            }
        }
    }
}

/// Committing a font-set action that differs from the active font
/// preserves dedup, and makes its font the active one.
proof fn lemma_push_font(s: Seq<ActionView>, active: (nat, int), index: nat, size: int)
    requires
        fonts_deduped(s),
        active_matches_last_font(s, active),
        (index, size) != active,
    ensures
        fonts_deduped(s.push(ActionView::SetFont { index, size })),
        active_matches_last_font(s.push(ActionView::SetFont { index, size }), (index, size)),
{
    let x = ActionView::SetFont { index, size };
    let t = s.push(x);
    assert forall|i: int, j: int|
        0 <= i < j < t.len() && t[i] is SetFont && t[j] is SetFont && no_font_between(
            t,
            i,
            j,
        ) implies (t[i]->SetFont_index, t[i]->SetFont_size) != (
        t[j]->SetFont_index,
        t[j]->SetFont_size,
    ) by {
        if j == s.len() as int {
            assert(t[i] == s[i]);
            assert(no_font_between(s, i, s.len() as int)) by {
                assert forall|k: int| i < k < s.len() implies !(s[k] is SetFont) by {
                    assert(t[k] == s[k]);
                }
            }
            assert(active == (s[i]->SetFont_index, s[i]->SetFont_size));
        } else {
            assert(no_font_between(s, i, j)) by {
                assert forall|k: int| i < k < j implies !(s[k] is SetFont) by {
                    assert(t[k] == s[k]);
                }
            }
        }
    }
    assert forall|i: int|
        0 <= i < t.len() && t[i] is SetFont && no_font_between(
            t,
            i,
            t.len() as int,
        ) implies (index, size) == (t[i]->SetFont_index, t[i]->SetFont_size) by {
        if i < s.len() as int {
            assert(t[s.len() as int] is SetFont);
            assert(false);
        }
    }
}

/// Law: a freshly created buffer is font-well-formed.
pub proof fn lemma_empty_fonts_wf()
    ensures
        fonts_wf(crate::buffer::empty_list_view()),
{
}

/// Law: appending one action preserves font well-formedness — the
/// committed stream never gains two font-set actions with the same font
/// and no effective change in between, because a cached font is compared
/// against the active font at flush time.
pub proof fn lemma_add_preserves_fonts_wf(b: ListView, a: ActionView)
    requires
        fonts_wf(b),
    ensures
        fonts_wf(add_spec(b, a)),
{
    match a {
        ActionView::Move { .. } => {}
        ActionView::SetFont { .. } => {}
        ActionView::DebugBox { x, y, w, h } => {
            lemma_push_non_font(
                b.committed,
                b.active_font,
                ActionView::DebugBox { x: b.origin.0 + x, y: b.origin.1 + y, w, h },
            );
        }
        ActionView::Write { text } => {
            let b1 = flush_move_spec(b);
            match b.pending_move {
                Some(p) => {
                    lemma_push_non_font(
                        b.committed,
                        b.active_font,
                        ActionView::Move { x: p.0, y: p.1 },
                    );
                }
                None => {}
            }
            assert(fonts_wf(b1));
            let b2 = flush_font_spec(b1);
            match b1.pending_font {
                Some(f) => {
                    if f != b1.active_font {
                        lemma_push_font(b1.committed, b1.active_font, f.0, f.1);
                    }
                }
                None => {}
            }
            assert(fonts_wf(b2));
            lemma_push_non_font(b2.committed, b2.active_font, ActionView::Write { text });
        }
    }
}

/// Law: appending any sequence of actions preserves font
/// well-formedness.
pub proof fn lemma_add_all_preserves_fonts_wf(b: ListView, acts: Seq<ActionView>)
    requires
        fonts_wf(b),
    ensures
        fonts_wf(add_all_spec(b, acts)),
    decreases acts.len(),
{
    if acts.len() > 0 {
        lemma_add_preserves_fonts_wf(b, acts[0]);
        lemma_add_all_preserves_fonts_wf(add_spec(b, acts[0]), acts.drop_first());
    }
}

/// Law: composing a sub-layout preserves font well-formedness.
pub proof fn lemma_add_layout_preserves_fonts_wf(b: ListView, pos: (int, int), l: LayoutView)
    requires
        fonts_wf(b),
    ensures
        fonts_wf(add_layout_spec(b, pos, l)),
{
    let flushed = flush_move_spec(b);
    match b.pending_move {
        Some(p) => {
            lemma_push_non_font(b.committed, b.active_font, ActionView::Move { x: p.0, y: p.1 });
        }
        None => {}
    }
    assert(fonts_wf(flushed));
    let rebased = rebase_spec(b, pos, l);
    if l.debug_render {
        lemma_push_non_font(
            flushed.committed,
            flushed.active_font,
            ActionView::DebugBox { x: pos.0, y: pos.1, w: l.dims.0, h: l.dims.1 },
        );
    }
    assert(fonts_wf(rebased));
    lemma_add_all_preserves_fonts_wf(rebased, l.actions);
}

} // verus!
