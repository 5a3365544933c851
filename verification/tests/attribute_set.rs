use evdev::{AttributeSet, KeyCode, SwitchType};

#[test]
pub fn test_iteration_keys() {
    let mut keys: AttributeSet<KeyCode> = AttributeSet::new();

    for code in 1..59 {
        keys.insert(KeyCode::new(code));
    }

    assert_eq!(58, keys.iter().len());

    let mut expected: i16 = 58;

    for typ in keys.iter() {
        expected -= 1;

        assert_eq!(expected as usize, keys.slice_iter(KeyCode(typ.0 + 1)).len());
    }
}

#[test]
pub fn test_first_element_in_slice_iter() {
    let mut keys: AttributeSet<KeyCode> = AttributeSet::new();
    keys.insert(KeyCode(0));
    keys.insert(KeyCode(1));

    assert_eq!(KeyCode(0), keys.slice_iter(KeyCode(0))[0]);
    assert_eq!(KeyCode(1), keys.slice_iter(KeyCode(1))[0]);
}

#[test]
fn insert_then_contains_and_remove() {
    let mut sw: AttributeSet<SwitchType> = AttributeSet::new();
    assert!(!sw.contains(SwitchType(SwitchType::SW_LID)));
    sw.insert(SwitchType(SwitchType::SW_LID));
    sw.insert(SwitchType(SwitchType::SW_MACHINE_COVER));
    assert!(sw.contains(SwitchType(SwitchType::SW_LID)));
    assert!(sw.contains(SwitchType(SwitchType::SW_MACHINE_COVER)));
    assert!(!sw.contains(SwitchType(SwitchType::SW_DOCK)));
    sw.remove(SwitchType(SwitchType::SW_LID));
    assert!(!sw.contains(SwitchType(SwitchType::SW_LID)));
    assert_eq!(sw.iter(), vec![SwitchType(SwitchType::SW_MACHINE_COVER)]);
}

#[test]
fn codes_beyond_capacity_are_absent() {
    let keys: AttributeSet<KeyCode> = AttributeSet::new();
    assert!(!keys.contains(KeyCode(0x300)));
    assert!(!keys.contains(KeyCode(0xffff)));
}

#[test]
fn from_raw_bytes_reads_bits_lsb_first() {
    // bit 0 of byte 0 is code 0, bit 1 of byte 2 is code 17
    let sw: AttributeSet<SwitchType> = AttributeSet::from_raw_bytes(&[0b0000_0101, 0, 0b0000_0010]);
    assert_eq!(
        sw.iter(),
        vec![SwitchType(0), SwitchType(2), SwitchType(17)]
    );
}

#[test]
fn iteration_is_sorted_and_slice_skips_below_start() {
    let mut keys: AttributeSet<KeyCode> = AttributeSet::new();
    for code in [300u16, 5, 767, 0, 42] {
        keys.insert(KeyCode(code));
    }
    assert_eq!(
        keys.iter(),
        vec![KeyCode(0), KeyCode(5), KeyCode(42), KeyCode(300), KeyCode(767)]
    );
    assert_eq!(keys.slice_iter(KeyCode(6)), vec![KeyCode(42), KeyCode(300), KeyCode(767)]);
    assert_eq!(keys.slice_iter(KeyCode(768)), vec![]);
}

#[test]
fn clone_keeps_members() {
    let mut keys: AttributeSet<KeyCode> = AttributeSet::new();
    keys.insert(KeyCode(KeyCode::KEY_A));
    let copy = keys.clone();
    keys.remove(KeyCode(KeyCode::KEY_A));
    assert!(copy.contains(KeyCode(KeyCode::KEY_A)));
    assert!(!keys.contains(KeyCode(KeyCode::KEY_A)));
}
