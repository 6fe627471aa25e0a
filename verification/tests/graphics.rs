use funksyscore::graphics::{Position, Scale, Vector2};

#[test]
fn position_starts_at_the_origin() {
    let origin = Position::new();
    assert_eq!(origin, Position(0, 0));
    assert_eq!(origin.get_x(), 0);
    assert_eq!(origin.get_y(), 0);
}

#[test]
fn position_keeps_its_coordinates() {
    let position = Position::spawn(640, 65535);
    assert_eq!(position.get_x(), 640);
    assert_eq!(position.get_y(), 65535);
    assert_eq!(position, Position(640, 65535));
}

#[test]
fn scale_starts_at_the_origin() {
    let origin = Scale::new();
    assert_eq!(origin, Scale(0, 0));
    assert_eq!(origin.get_x(), 0);
    assert_eq!(origin.get_y(), 0);
}

#[test]
fn scale_keeps_its_coordinates() {
    let scale = Scale::spawn(2, 255);
    assert_eq!(scale.get_x(), 2);
    assert_eq!(scale.get_y(), 255);
    assert_eq!(scale, Scale(2, 255));
}
