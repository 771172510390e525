use lighting::light_id::RESERVED_BIT;
use lighting::LightId;

#[test]
fn reserved_bit_is_the_top_bit() {
    assert_eq!(RESERVED_BIT, 0x80);
}

#[test]
fn user_ids_lie_below_the_reserved_bit() {
    assert_eq!(LightId::user(0), Some(LightId(0)));
    assert_eq!(LightId::user(0x7f), Some(LightId(0x7f)));
    assert_eq!(LightId::user(0x80), None);
    assert_eq!(LightId::user(0xff), None);
    assert!(!LightId::user(0x7f).unwrap().reserved());
}

#[test]
fn internal_ids_carry_the_reserved_bit() {
    assert_eq!(LightId::internal(0), LightId(0x80));
    assert_eq!(LightId::internal(5), LightId(0x85));
    assert_eq!(LightId::internal(0x7f), LightId(0xff));
    assert_eq!(LightId::internal(0x85), LightId(0x85));
    assert!(LightId::internal(5).reserved());
}

#[test]
fn reserved_range_is_the_upper_half() {
    assert!(!LightId(0).reserved());
    assert!(!LightId(0x7f).reserved());
    assert!(LightId(0x80).reserved());
    assert!(LightId(0xff).reserved());
}

#[test]
fn user_and_internal_ids_never_meet() {
    for user in 0..=255u8 {
        if let Some(id) = LightId::user(user) {
            for internal in 0..=255u8 {
                assert_ne!(id, LightId::internal(internal));
            }
        }
    }
}
