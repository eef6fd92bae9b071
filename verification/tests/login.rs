use filehost::login::{Permissions, UserId, GUEST_ID, ROOT_ID};

#[test]
fn permissions_has_checks_every_requested_bit() {
    let p = Permissions::none() | 0x05;
    assert!(p.has(0x01));
    assert!(!p.has(0x02));
    assert!(p.has(0x04));
    assert!(p.has(0x05));
    assert!(!p.has(0x07));
    assert!(p.has(0x00));
}

#[test]
fn permissions_none_and_all() {
    assert_eq!(Permissions::none(), Permissions(0x00));
    assert_eq!(Permissions::all(), Permissions(0xFF));
    assert!(Permissions::none().has(0));
    assert!(!Permissions::none().has(1));
    for req in 0..=255u8 {
        assert!(Permissions::all().has(req));
    }
}

#[test]
fn permissions_has_is_bitwise_inclusion() {
    for have in 0..=255u8 {
        for req in [0u8, 1, 2, 3, 0x10, 0x81, 0xF0, 0xFF] {
            assert_eq!(Permissions(have).has(req), have & req == req);
        }
    }
}

#[test]
fn permissions_are_composed_with_or() {
    assert_eq!(Permissions(0x03) | Permissions(0x0C), Permissions(0x0F));
    assert_eq!(Permissions(0x03) | 0x30u8, Permissions(0x33));
    let mut p = Permissions(0x01);
    p |= Permissions(0x02);
    assert_eq!(p, Permissions(0x03));
    p |= 0x80u8;
    assert_eq!(p, Permissions(0x83));
}

#[test]
fn permissions_convert_from_and_to_a_byte() {
    assert_eq!(Permissions::from(0x2Au8), Permissions(0x2A));
    assert_eq!(u8::from(Permissions(0x2A)), 0x2A);
}

#[test]
fn reserved_identities() {
    let root: UserId = ROOT_ID;
    let guest: UserId = GUEST_ID;
    assert_eq!(root, 0);
    assert_eq!(guest, 1);
}
