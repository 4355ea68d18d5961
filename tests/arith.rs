use flipper_core::add;

#[test]
fn add_small_values() {
    assert_eq!(add(2, 3), 5);
    assert_eq!(add(0, 0), 0);
}

#[test]
fn add_wraps_at_word_boundary() {
    assert_eq!(add(u32::MAX, 1), 0);
    assert_eq!(add(u32::MAX, 2), 1);
    assert_eq!(add(u32::MAX, u32::MAX), u32::MAX - 1);
    assert_eq!(add(0x8000_0000, 0x8000_0000), 0);
}

#[test]
fn add_matches_sum_modulo_word() {
    let cases: [(u32, u32); 4] = [(1, 2), (0xdead_beef, 0x1234_5678), (u32::MAX, 7), (0x7fff_ffff, 1)];
    for (a, b) in cases {
        let expected = ((a as u64 + b as u64) % (1u64 << 32)) as u32;
        assert_eq!(add(a, b), expected);
    }
}

#[test]
fn add_is_commutative() {
    assert_eq!(add(0xdead_beef, 0x1234_5678), add(0x1234_5678, 0xdead_beef));
    assert_eq!(add(u32::MAX, 5), add(5, u32::MAX));
}

#[test]
fn add_is_associative() {
    let (a, b, c) = (u32::MAX, 0x8000_0001u32, 0x7fff_ffffu32);
    assert_eq!(add(add(a, b), c), add(a, add(b, c)));
    let (a, b, c) = (1u32, 2u32, 3u32);
    assert_eq!(add(add(a, b), c), add(a, add(b, c)));
}
