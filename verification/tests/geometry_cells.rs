use pong::fixed::Fixed;
use pong::geometry::{DiscretePosition2D, Position2D, Velocity2D};
use pong::input::{is_held, Key};

#[test]
fn position_holds_its_coordinates() {
    let p = Position2D::new(Fixed::from_raw(1_400_000), Fixed::from_raw(-2_500_000));
    assert_eq!(p.x.raw(), 1_400_000);
    assert_eq!(p.y.raw(), -2_500_000);
}

#[test]
fn velocity_holds_its_components() {
    let v = Velocity2D::new(Fixed::from_raw(-15_000_000), Fixed::from_raw(3_000_000));
    assert_eq!(v.vx.raw(), -15_000_000);
    assert_eq!(v.vy.raw(), 3_000_000);
}

#[test]
fn to_discrete_rounds_each_coordinate() {
    let p = Position2D::new(Fixed::from_raw(1_400_000), Fixed::from_raw(2_500_000));
    assert_eq!(p.to_discrete(), DiscretePosition2D::new(1, 3));
    let q = Position2D::new(Fixed::from_raw(59_500_000), Fixed::from_raw(17_499_999));
    assert_eq!(q.to_discrete(), DiscretePosition2D::new(60, 17));
}

#[test]
fn to_discrete_of_point_left_of_or_below_field_is_edge_cell() {
    let p = Position2D::new(Fixed::from_raw(-3_000_000), Fixed::from_raw(4_000_000));
    assert_eq!(p.to_discrete(), DiscretePosition2D::new(0, 4));
    let q = Position2D::new(Fixed::from_raw(3_000_000), Fixed::from_raw(-1));
    assert_eq!(q.to_discrete(), DiscretePosition2D::new(3, 0));
}

#[test]
fn discrete_position_holds_its_cell() {
    let c = DiscretePosition2D::new(3, 4);
    assert_eq!(c.x, 3);
    assert_eq!(c.y, 4);
    assert_ne!(c, DiscretePosition2D::new(4, 3));
}

#[test]
fn to_continuous_is_centre_of_cell() {
    let p = DiscretePosition2D::new(3, 4).to_continuous();
    assert_eq!(p.x.raw(), 3_000_000);
    assert_eq!(p.y.raw(), 4_000_000);
}

#[test]
fn round_trip_through_cell_loses_fraction() {
    let p = Position2D::new(Fixed::from_raw(1_400_000), Fixed::from_raw(2_500_000));
    let back = p.to_discrete().to_continuous();
    assert_eq!(back.x.raw(), 1_000_000);
    assert_eq!(back.y.raw(), 3_000_000);
    assert_eq!(back.to_discrete(), p.to_discrete());
}

#[test]
fn is_held_finds_key_among_held_keys() {
    let keys = vec![Key::Up, Key::Char('w'), Key::Esc];
    assert!(is_held(&keys, Key::Up));
    assert!(is_held(&keys, Key::Char('w')));
    assert!(is_held(&keys, Key::Esc));
    assert!(!is_held(&keys, Key::Down));
    assert!(!is_held(&keys, Key::Char('W')));
    assert!(!is_held(&keys, Key::Char('s')));
}

#[test]
fn is_held_finds_nothing_among_no_keys() {
    let keys: Vec<Key> = Vec::new();
    assert!(!is_held(&keys, Key::Up));
    assert!(!is_held(&keys, Key::Char('r')));
}
