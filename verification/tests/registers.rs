use fvm::components::registers::Registers;

#[test]
fn get_register_u8() {
    let r = Registers::new();
    let r0: u8 = r.get_register(0);
    assert_eq!(r0, 0u8);
}

#[test]
fn set_register_u8() {
    let mut r = Registers::new();
    r.set_register::<u8>(0, 69);
    let r0: u8 = r.get_register(0);
    assert_eq!(r0, 69u8);
}

#[test]
fn set_register_i16() {
    let mut r = Registers::new();
    r.set_register::<i16>(0, 265);
    let r0: i16 = r.get_register(0);
    assert_eq!(r0, 265i16);
}

#[test]
fn set_register_u64() {
    let mut r = Registers::new();
    r.set_register::<u64>(0, 420);
    let r0: u64 = r.get_register(0);
    assert_eq!(r0, 420u64);
}

#[test]
fn set_register_i64() {
    let mut r = Registers::new();
    r.set_register::<i64>(0, 420);
    let r0: i64 = r.get_register(0);
    assert_eq!(r0, 420i64);
}

#[test]
fn set_register_negative_values() {
    let mut r = Registers::new();
    r.set_register::<i16>(3, -265);
    let r3: i16 = r.get_register(3);
    assert_eq!(r3, -265i16);
    r.set_register::<i64>(3, -1);
    let r3: i64 = r.get_register(3);
    assert_eq!(r3, -1i64);
}

#[test]
fn set_register_keeps_other_slots() {
    let mut r = Registers::new();
    r.set_register::<u32>(1, 7);
    r.set_register::<u32>(2, 8);
    let r1: u32 = r.get_register(1);
    let r2: u32 = r.get_register(2);
    assert_eq!((r1, r2), (7u32, 8u32));
}
