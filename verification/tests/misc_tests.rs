use hecto::editorcommand::{Direction, EditorCommand};
use hecto::location::Location;
use hecto::position::Position;
use hecto::size::Size;

#[test]
fn location_subtract_saturates_at_zero() {
    let a = Location { x: 5, y: 2 };
    let b = Location { x: 3, y: 7 };
    let d = a.subtract(&b);
    assert_eq!(d, Location { x: 2, y: 0 });
}

#[test]
fn position_saturating_sub() {
    let a = Position { col: 4, row: 10 };
    let b = Position { col: 6, row: 3 };
    let d = a.saturating_sub(b);
    assert_eq!(d, Position { col: 0, row: 7 });
}

#[test]
fn defaults_are_origins() {
    assert_eq!(Location::default(), Location { x: 0, y: 0 });
    assert_eq!(Position::default(), Position { col: 0, row: 0 });
    assert_eq!(Size::default(), Size { width: 0, height: 0 });
}

#[test]
fn flat_command_shape_carries_its_payloads() {
    let resize = EditorCommand::Resize(Size { width: 3, height: 4 });
    assert!(matches!(resize, EditorCommand::Resize(s) if s.width == 3 && s.height == 4));
    let mv = EditorCommand::Move(Direction::PageUp);
    assert!(matches!(mv, EditorCommand::Move(Direction::PageUp)));
    let ins = EditorCommand::Insert('x');
    assert!(matches!(ins, EditorCommand::Insert('x')));
}
