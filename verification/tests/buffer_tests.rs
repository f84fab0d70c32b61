use layout_actions::action::LayoutAction;
use layout_actions::buffer::{Layout, LayoutActionList};
use layout_actions::size::{Size, Size2D};

fn pos(x: i64, y: i64) -> Size2D {
    Size2D::new(Size::pt(x), Size::pt(y))
}

fn serialized(list: LayoutActionList) -> Vec<String> {
    list.into_vec().iter().map(|a| a.serialize()).collect()
}

#[test]
fn end_to_end_stream() {
    let mut list = LayoutActionList::new();
    list.add(LayoutAction::MoveAbsolute(pos(10, 10)));
    list.add(LayoutAction::SetFont(0, Size::pt(12)));
    list.add(LayoutAction::WriteText(String::from("hi")));
    list.add(LayoutAction::MoveAbsolute(pos(20, 10)));
    list.add(LayoutAction::WriteText(String::from("there")));
    assert_eq!(
        serialized(list),
        vec![
            "m 10.0000 10.0000",
            "f 0 12",
            "w hi",
            "m 20.0000 10.0000",
            "w there",
        ]
    );
}

#[test]
fn repeated_active_font_not_recommitted() {
    let mut list = LayoutActionList::new();
    list.add(LayoutAction::SetFont(3, Size::pt(12)));
    list.add(LayoutAction::WriteText(String::from("a")));
    // The font (3, 12pt) is now active; setting it again, even twice,
    // must commit no further SetFont action.
    list.add(LayoutAction::SetFont(3, Size::pt(12)));
    list.add(LayoutAction::SetFont(3, Size::pt(12)));
    list.add(LayoutAction::WriteText(String::from("b")));
    assert_eq!(serialized(list), vec!["f 3 12", "w a", "w b"]);
}

#[test]
fn only_last_move_committed() {
    let mut list = LayoutActionList::new();
    list.add(LayoutAction::MoveAbsolute(pos(1, 1)));
    list.add(LayoutAction::MoveAbsolute(pos(2, 2)));
    list.add(LayoutAction::MoveAbsolute(pos(3, 3)));
    list.add(LayoutAction::WriteText(String::from("x")));
    assert_eq!(serialized(list), vec!["m 3.0000 3.0000", "w x"]);
}

#[test]
fn only_last_font_committed() {
    let mut list = LayoutActionList::new();
    list.add(LayoutAction::SetFont(1, Size::pt(10)));
    list.add(LayoutAction::SetFont(2, Size::pt(11)));
    list.add(LayoutAction::WriteText(String::from("x")));
    assert_eq!(serialized(list), vec!["f 2 11", "w x"]);
}

#[test]
fn debug_box_commits_immediately_and_preserves_pending() {
    let mut list = LayoutActionList::new();
    list.add(LayoutAction::MoveAbsolute(pos(1, 1)));
    list.add(LayoutAction::SetFont(1, Size::pt(10)));
    list.add(LayoutAction::DebugBox(pos(0, 0), pos(5, 5)));
    list.add(LayoutAction::WriteText(String::from("x")));
    assert_eq!(
        serialized(list),
        vec![
            "b 0.0000 0.0000 5.0000 5.0000",
            "m 1.0000 1.0000",
            "f 1 10",
            "w x",
        ]
    );
}

#[test]
fn pending_state_alone_keeps_buffer_empty() {
    let mut list = LayoutActionList::new();
    assert!(list.is_empty());
    list.add(LayoutAction::MoveAbsolute(pos(1, 1)));
    assert!(list.is_empty());
    list.add(LayoutAction::SetFont(1, Size::pt(10)));
    assert!(list.is_empty());
    list.add(LayoutAction::WriteText(String::from("x")));
    assert!(!list.is_empty());
}

#[test]
fn debug_box_makes_buffer_non_empty() {
    let mut list = LayoutActionList::new();
    assert!(list.is_empty());
    list.add(LayoutAction::DebugBox(pos(0, 0), pos(1, 1)));
    assert!(!list.is_empty());
}

#[test]
fn new_list_yields_nothing() {
    let list = LayoutActionList::new();
    assert!(list.into_vec().is_empty());
}

#[test]
fn extend_equals_repeated_add() {
    let mut one = LayoutActionList::new();
    one.extend(vec![
        LayoutAction::MoveAbsolute(pos(1, 2)),
        LayoutAction::SetFont(0, Size::pt(9)),
        LayoutAction::WriteText(String::from("x")),
    ]);
    let mut other = LayoutActionList::new();
    other.add(LayoutAction::MoveAbsolute(pos(1, 2)));
    other.add(LayoutAction::SetFont(0, Size::pt(9)));
    other.add(LayoutAction::WriteText(String::from("x")));
    assert_eq!(serialized(one), serialized(other));
}

#[test]
fn composed_layout_translates_moves() {
    let sub = Layout {
        actions: vec![
            LayoutAction::MoveAbsolute(pos(5, 5)),
            LayoutAction::WriteText(String::from("x")),
        ],
        dimensions: pos(40, 20),
        debug_render: false,
    };
    let mut list = LayoutActionList::new();
    list.add_layout(pos(10, 10), sub);
    assert_eq!(serialized(list), vec!["m 15.0000 15.0000", "w x"]);
}

#[test]
fn composed_layout_with_debug_overlay() {
    let sub = Layout {
        actions: vec![LayoutAction::WriteText(String::from("x"))],
        dimensions: pos(40, 20),
        debug_render: true,
    };
    let mut list = LayoutActionList::new();
    list.add_layout(pos(10, 10), sub);
    assert_eq!(
        serialized(list),
        vec![
            "b 10.0000 10.0000 40.0000 20.0000",
            "m 10.0000 10.0000",
            "w x",
        ]
    );
}

#[test]
fn compose_flushes_previous_frames_pending_move() {
    let sub = Layout {
        actions: vec![LayoutAction::WriteText(String::from("x"))],
        dimensions: pos(1, 1),
        debug_render: false,
    };
    let mut list = LayoutActionList::new();
    list.add(LayoutAction::MoveAbsolute(pos(1, 1)));
    list.add_layout(pos(10, 10), sub);
    assert_eq!(
        serialized(list),
        vec!["m 1.0000 1.0000", "m 10.0000 10.0000", "w x"]
    );
}

#[test]
fn origin_persists_after_composition() {
    // The origin is single-valued: after composing, later appends are
    // still translated by the composition anchor until the next one.
    let sub = Layout {
        actions: vec![
            LayoutAction::MoveAbsolute(pos(5, 5)),
            LayoutAction::WriteText(String::from("x")),
        ],
        dimensions: pos(1, 1),
        debug_render: false,
    };
    let mut list = LayoutActionList::new();
    list.add_layout(pos(10, 10), sub);
    list.add(LayoutAction::MoveAbsolute(pos(0, 0)));
    list.add(LayoutAction::WriteText(String::from("y")));
    assert_eq!(
        serialized(list),
        vec![
            "m 15.0000 15.0000",
            "w x",
            "m 10.0000 10.0000",
            "w y",
        ]
    );
}

#[test]
fn first_set_font_never_dropped() {
    // The sentinel active font must not equal any real font, so even
    // font index zero at size zero is committed the first time.
    let mut list = LayoutActionList::new();
    list.add(LayoutAction::SetFont(0, Size::pt(0)));
    list.add(LayoutAction::WriteText(String::from("x")));
    assert_eq!(serialized(list), vec!["f 0 0", "w x"]);
}
