use jitter::buffer::{Jitter, PAGE_SIZE};

#[test]
fn region_size_rounds_up_to_pages() {
    assert_eq!(Jitter::new(&[0xc3]).region_size(), 4096);
    assert_eq!(Jitter::new(&vec![0x90; 4095]).region_size(), 4096);
    assert_eq!(Jitter::new(&vec![0x90; 4096]).region_size(), 4096);
    assert_eq!(Jitter::new(&vec![0x90; 4097]).region_size(), 8192);
    assert_eq!(Jitter::new(&vec![0x90; 3 * 4096 + 5]).region_size(), 4 * 4096);
}

#[test]
fn region_size_of_empty_code_is_zero() {
    assert_eq!(Jitter::new(&[]).region_size(), 0);
}

#[test]
fn region_size_covers_code() {
    for len in [1usize, 2, 100, 4095, 4096, 4097, 8191, 8192, 10000] {
        let size = Jitter::new(&vec![0u8; len]).region_size();
        assert!(size >= len);
        assert_eq!(size % PAGE_SIZE, 0);
        assert_eq!(size, (len + PAGE_SIZE - 1) / PAGE_SIZE * PAGE_SIZE);
    }
}

#[test]
fn code_is_copied_byte_for_byte() {
    let code = [0xb8, 0x2a, 0x00, 0x00, 0x00, 0xc3];
    let j = Jitter::new(&code);
    assert_eq!(j.code(), &code);
}

#[test]
fn fresh_buffer_has_no_entry_and_nothing_to_release() {
    let mut j = Jitter::new(&[0xc3]);
    assert_eq!(j.entry(), None);
    assert_eq!(j.release(), None);
}

#[test]
fn attach_then_entry_is_the_base() {
    let mut j = Jitter::new(&[0xc3]);
    assert!(j.attach(0x10_0000));
    assert_eq!(j.entry(), Some(0x10_0000));
}

#[test]
fn release_hands_back_region_exactly_once() {
    let mut j = Jitter::new(&[0xc3]);
    assert!(j.attach(0x20_0000));
    assert_eq!(j.release(), Some((0x20_0000, 4096)));
    assert_eq!(j.release(), None);
    assert_eq!(j.release(), None);
    assert_eq!(j.entry(), None);
}

#[test]
fn no_attach_after_release() {
    let mut j = Jitter::new(&[0xc3]);
    assert!(j.attach(0x20_0000));
    assert_eq!(j.release(), Some((0x20_0000, 4096)));
    assert!(!j.attach(0x30_0000));
    assert_eq!(j.release(), None);
}

#[test]
fn second_attach_is_refused() {
    let mut j = Jitter::new(&[0xc3]);
    assert!(j.attach(0x20_0000));
    assert!(!j.attach(0x30_0000));
    assert_eq!(j.entry(), Some(0x20_0000));
}

#[test]
fn empty_buffer_takes_no_region() {
    let mut j = Jitter::new(&[]);
    assert!(!j.attach(0x20_0000));
    assert_eq!(j.entry(), None);
}

#[test]
fn region_past_the_address_space_is_refused() {
    let mut j = Jitter::new(&[0xc3]);
    assert!(!j.attach(usize::MAX - 100));
    assert!(j.attach(usize::MAX - 4096));
    assert_eq!(j.release(), Some((usize::MAX - 4096, 4096)));
}

#[test]
fn same_bytes_twice_give_equal_buffers() {
    let code = [0xb8, 0x2a, 0x00, 0x00, 0x00, 0xc3];
    let mut a = Jitter::new(&code);
    let mut b = Jitter::new(&code);
    assert_eq!(a.code(), b.code());
    assert_eq!(a.region_size(), b.region_size());
    assert!(a.attach(0x10_0000));
    assert!(b.attach(0x20_0000));
    assert_eq!(a.release(), Some((0x10_0000, 4096)));
    assert_eq!(b.release(), Some((0x20_0000, 4096)));
}
