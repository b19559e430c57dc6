use mks_servo42::Direction;

#[test]
fn test_direction_values() {
    assert_eq!(Direction::Forward.as_u8(), 0x80);
    assert_eq!(Direction::Reverse.as_u8(), 0x00);
}
