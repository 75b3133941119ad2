use wasm_shim::array::FixedArray;
use wasm_shim::hex::push_hex;

fn sample() -> FixedArray<u8, 4> {
    FixedArray::new([0x00, 0x1f, 0xa0, 0xff])
}

fn counting() -> FixedArray<u8, 32> {
    let mut data = [0u8; 32];
    for (i, slot) in data.iter_mut().enumerate() {
        *slot = i as u8;
    }
    FixedArray::new(data)
}

#[test]
fn len_is_the_type_level_length() {
    assert_eq!(FixedArray::new([7u8; 1]).len(), 1);
    assert_eq!(sample().len(), 4);
    assert_eq!(counting().len(), 32);
    assert_eq!(FixedArray::new([0u8; 64]).len(), 64);
}

#[test]
fn is_empty_is_always_false() {
    assert!(!FixedArray::new([7u8; 1]).is_empty());
    assert!(!sample().is_empty());
    assert!(!FixedArray::new([0u8; 64]).is_empty());
}

#[test]
fn is_empty_is_false_even_without_elements() {
    let nothing: FixedArray<u8, 0> = FixedArray::new([]);
    assert_eq!(nothing.len(), 0);
    assert!(!nothing.is_empty());
}

#[test]
fn index_returns_each_stored_element() {
    let a = counting();
    for i in 0..32 {
        assert_eq!(a[i], i as u8);
    }
    let b = sample();
    assert_eq!(b[0], 0x00);
    assert_eq!(b[1], 0x1f);
    assert_eq!(b[2], 0xa0);
    assert_eq!(b[3], 0xff);
}

#[test]
fn half_open_range_is_the_window() {
    let a = sample();
    assert_eq!(&a[1..3], &[0x1f, 0xa0]);
    assert_eq!(&a[0..4], &[0x00, 0x1f, 0xa0, 0xff]);
    assert_eq!(&a[3..4], &[0xff]);
    let c = counting();
    assert_eq!(&c[8..12], &[8, 9, 10, 11]);
}

#[test]
fn empty_windows_are_allowed_at_every_position() {
    let a = sample();
    let none: &[u8] = &[];
    assert_eq!(&a[0..0], none);
    assert_eq!(&a[2..2], none);
    assert_eq!(&a[4..4], none);
    assert_eq!(&a[4..], none);
    assert_eq!(&a[..0], none);
}

#[test]
fn range_from_runs_to_the_end() {
    let a = sample();
    assert_eq!(&a[0..], &[0x00, 0x1f, 0xa0, 0xff]);
    assert_eq!(&a[1..], &[0x1f, 0xa0, 0xff]);
    assert_eq!(&a[3..], &[0xff]);
}

#[test]
fn range_to_starts_at_the_front() {
    let a = sample();
    assert_eq!(&a[..1], &[0x00]);
    assert_eq!(&a[..3], &[0x00, 0x1f, 0xa0]);
    assert_eq!(&a[..4], &[0x00, 0x1f, 0xa0, 0xff]);
}

#[test]
fn full_range_is_every_element() {
    let a = sample();
    assert_eq!(&a[..], &[0x00, 0x1f, 0xa0, 0xff]);
    assert_eq!(a[..].len(), a.len());
    let c = counting();
    for i in 0..32 {
        assert_eq!(c[..][i], c[i]);
    }
}

#[test]
fn range_forms_agree_with_each_other() {
    let c = counting();
    for start in 0..=32 {
        assert_eq!(&c[start..], &c[start..32]);
        assert_eq!(&c[..start], &c[0..start]);
        assert_eq!(&c[start..], &c[..][start..]);
    }
}

#[test]
fn equality_is_pairwise() {
    assert!(sample() == sample());
    assert!(sample() == FixedArray::new([0x00, 0x1f, 0xa0, 0xff]));
    assert!(sample() != FixedArray::new([0x01, 0x1f, 0xa0, 0xff]));
    assert!(sample() != FixedArray::new([0x00, 0x1f, 0xa1, 0xff]));
    assert!(sample() != FixedArray::new([0x00, 0x1f, 0xa0, 0xfe]));
    assert!(sample() != FixedArray::new([0xff, 0xa0, 0x1f, 0x00]));
}

#[test]
fn equality_of_arrays_without_elements() {
    let a: FixedArray<u8, 0> = FixedArray::new([]);
    let b: FixedArray<u8, 0> = FixedArray::new([]);
    assert!(a == b);
}

#[test]
fn clone_is_equal_to_its_source() {
    let a = counting();
    let b = a.clone();
    assert!(a == b);
    assert_eq!(&a[..], &b[..]);
    assert_eq!(b.len(), 32);
}

#[test]
fn writing_to_a_clone_leaves_the_source_alone() {
    let a = sample();
    let mut b = a.clone();
    b.as_mut_array()[1] = 0x77;
    assert_eq!(&b[..], &[0x00, 0x77, 0xa0, 0xff]);
    assert_eq!(&a[..], &[0x00, 0x1f, 0xa0, 0xff]);
    assert!(a != b);
}

#[test]
fn writing_to_the_source_leaves_a_clone_alone() {
    let mut a = sample();
    let b = a.clone();
    *a.as_mut_array() = [1, 2, 3, 4];
    assert_eq!(&a[..], &[1, 2, 3, 4]);
    assert_eq!(&b[..], &[0x00, 0x1f, 0xa0, 0xff]);
}

#[test]
fn a_copy_is_a_clone() {
    let a = sample();
    let mut b = a;
    b.as_mut_array()[0] = 9;
    assert_eq!(a[0], 0x00);
    assert_eq!(b[0], 9);
}

#[test]
fn storage_views_show_the_elements() {
    let mut a = sample();
    assert_eq!(a.as_array(), &[0x00, 0x1f, 0xa0, 0xff]);
    assert_eq!(a.as_array().as_ptr(), a[..].as_ptr());
    a.as_mut_array()[3] = 0x01;
    assert_eq!(a.as_array(), &[0x00, 0x1f, 0xa0, 0x01]);
    assert_eq!(a[3], 0x01);
}

#[test]
fn storage_has_no_header_and_no_padding() {
    assert_eq!(std::mem::size_of::<FixedArray<u8, 32>>(), 32);
    assert_eq!(std::mem::size_of::<FixedArray<u8, 1>>(), 1);
    assert_eq!(std::mem::size_of::<FixedArray<u32, 8>>(), 32);
    assert_eq!(std::mem::align_of::<FixedArray<u32, 8>>(), std::mem::align_of::<u32>());
}

#[test]
fn other_element_types_behave_alike() {
    let a: FixedArray<i8, 3> = FixedArray::new([-1, 0, 1]);
    assert_eq!(a.len(), 3);
    assert!(!a.is_empty());
    assert_eq!(a[0], -1);
    assert_eq!(&a[1..], &[0, 1]);
    assert!(a == a.clone());
    let b: FixedArray<u32, 2> = FixedArray::new([0xdead_beef, 7]);
    assert_eq!(b[0], 0xdead_beef);
    assert_eq!(&b[..1], &[0xdead_beef]);
    assert!(b != FixedArray::new([0xdead_beef, 8]));
}

#[test]
fn raw_debug_is_lowercase_hex_without_wrapper() {
    assert_eq!(sample().raw_debug(), "001fa0ff");
    assert_eq!(FixedArray::new([0xabu8]).raw_debug(), "ab");
    assert_eq!(
        counting().raw_debug(),
        "000102030405060708090a0b0c0d0e0f101112131415161718191a1b1c1d1e1f"
    );
}

#[test]
fn raw_debug_has_two_digits_for_each_element() {
    let text = counting().raw_debug();
    assert_eq!(text.len(), 64);
    assert!(text.chars().all(|c| matches!(c, '0'..='9' | 'a'..='f')));
    let text = FixedArray::new([0xffu8; 64]).raw_debug();
    assert_eq!(text.len(), 128);
    assert!(text.chars().all(|c| c == 'f'));
}

#[test]
fn raw_debug_keeps_leading_zeros() {
    assert_eq!(FixedArray::new([0u8; 3]).raw_debug(), "000000");
    assert_eq!(FixedArray::new([0x0au8, 0x01]).raw_debug(), "0a01");
}

#[test]
fn raw_debug_agrees_with_the_standard_formatter() {
    for byte in 0..=255u8 {
        assert_eq!(FixedArray::new([byte]).raw_debug(), format!("{:02x}", byte));
    }
}

#[test]
fn pretty_debug_wraps_the_digits_in_the_name() {
    assert_eq!(sample().pretty_debug("SecretKey"), "SecretKey(001fa0ff)");
    assert_eq!(FixedArray::new([0xabu8]).pretty_debug("Tag"), "Tag(ab)");
    assert_eq!(
        counting().pretty_debug("Message"),
        "Message(000102030405060708090a0b0c0d0e0f101112131415161718191a1b1c1d1e1f)"
    );
}

#[test]
fn pretty_debug_is_the_raw_text_between_parentheses() {
    let a = counting();
    let pretty = a.pretty_debug("Signature");
    assert_eq!(pretty.len(), "Signature".len() + 2 * 32 + 2);
    assert!(pretty.starts_with("Signature("));
    assert!(pretty.ends_with(')'));
    assert_eq!(&pretty["Signature(".len()..pretty.len() - 1], a.raw_debug());
}

#[test]
fn pretty_debug_with_an_empty_name() {
    assert_eq!(sample().pretty_debug(""), "(001fa0ff)");
}

#[test]
fn push_hex_appends_to_what_is_there() {
    let mut text = String::from("0x");
    push_hex(&mut text, &[0xde, 0xad, 0xbe, 0xef]);
    assert_eq!(text, "0xdeadbeef");
    push_hex(&mut text, &[0x00]);
    assert_eq!(text, "0xdeadbeef00");
}

#[test]
fn push_hex_of_nothing_changes_nothing() {
    let mut text = String::from("kept");
    push_hex(&mut text, &[]);
    assert_eq!(text, "kept");
}
