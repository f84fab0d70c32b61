use layout_actions::action::LayoutAction;
use layout_actions::size::{Size, Size2D};

fn pos(x: i64, y: i64) -> Size2D {
    Size2D::new(Size::pt(x), Size::pt(y))
}

#[test]
fn serialize_move_four_decimals() {
    let a = LayoutAction::MoveAbsolute(
        Size2D::new(Size::from_units(35000), Size::from_units(40000)),
    );
    assert_eq!(a.serialize(), "m 3.5000 4.0000");
}

#[test]
fn serialize_move_whole_points() {
    let a = LayoutAction::MoveAbsolute(pos(10, 10));
    assert_eq!(a.serialize(), "m 10.0000 10.0000");
}

#[test]
fn serialize_move_negative() {
    let a = LayoutAction::MoveAbsolute(
        Size2D::new(Size::from_units(-5000), Size::from_units(10000)),
    );
    assert_eq!(a.serialize(), "m -0.5000 1.0000");
}

#[test]
fn serialize_set_font_whole_size() {
    let a = LayoutAction::SetFont(0, Size::pt(12));
    assert_eq!(a.serialize(), "f 0 12");
}

#[test]
fn serialize_set_font_fractional_size() {
    let a = LayoutAction::SetFont(3, Size::from_units(125000));
    assert_eq!(a.serialize(), "f 3 12.5");
}

#[test]
fn serialize_write_text_verbatim() {
    let a = LayoutAction::WriteText(String::from("hello world"));
    assert_eq!(a.serialize(), "w hello world");
}

#[test]
fn serialize_debug_box() {
    let a = LayoutAction::DebugBox(pos(10, 10), pos(20, 30));
    assert_eq!(a.serialize(), "b 10.0000 10.0000 20.0000 30.0000");
}

#[test]
fn serialize_zero_length() {
    let a = LayoutAction::MoveAbsolute(Size2D::zero());
    assert_eq!(a.serialize(), "m 0.0000 0.0000");
}

#[test]
fn serialize_small_fractions() {
    let a = LayoutAction::MoveAbsolute(
        Size2D::new(Size::from_units(100), Size::from_units(1)),
    );
    assert_eq!(a.serialize(), "m 0.0100 0.0001");
}

#[test]
fn serialize_extreme_lengths() {
    let a = LayoutAction::MoveAbsolute(
        Size2D::new(Size::from_units(i64::MIN), Size::from_units(i64::MAX)),
    );
    assert_eq!(a.serialize(), "m -922337203685477.5808 922337203685477.5807");
}

#[test]
fn display_trims_only_trailing_zeros() {
    let a = LayoutAction::SetFont(1, Size::from_units(100));
    assert_eq!(a.display_string(), "font 1 0.01");
}

#[test]
fn display_move_natural_form() {
    let a = LayoutAction::MoveAbsolute(
        Size2D::new(Size::from_units(35000), Size::from_units(40000)),
    );
    assert_eq!(a.display_string(), "move 3.5 4");
}

#[test]
fn display_set_font() {
    let a = LayoutAction::SetFont(3, Size::from_units(125000));
    assert_eq!(a.display_string(), "font 3 12.5");
}

#[test]
fn display_write_text_quoted() {
    let a = LayoutAction::WriteText(String::from("hi"));
    assert_eq!(a.display_string(), "write \"hi\"");
}

#[test]
fn display_debug_box() {
    let a = LayoutAction::DebugBox(pos(1, 2), pos(3, 4));
    assert_eq!(a.display_string(), "box 1 2 3 4");
}
