use subgrabber::fingerprint::{compute_fingerprint, fingerprint_from_windows, FileFingerprint};

fn reference_sum(bytes: &[u8]) -> u64 {
    let mut sum: u64 = 0;
    for chunk in bytes.chunks_exact(8) {
        let word = u64::from_le_bytes(chunk.try_into().unwrap());
        sum = sum.wrapping_add(word);
    }
    sum
}

fn patterned(len: usize) -> Vec<u8> {
    (0..len).map(|i| ((i * 7 + 3) % 256) as u8).collect()
}

#[test]
fn determinism_same_content_same_fingerprint() {
    let data = patterned(100_000);
    let first = compute_fingerprint(&data);
    let second = compute_fingerprint(&data);
    assert_eq!(first, second);
    assert_eq!(first.hex_hash(), second.hex_hash());
}

#[test]
fn single_window_overlap_counts_twice() {
    // Exactly one window: head and tail are the whole file, so every word
    // is summed twice.
    let data = patterned(65536);
    let fp = compute_fingerprint(&data);
    let sum = reference_sum(&data);
    let expected = 65536u64.wrapping_add(sum).wrapping_add(sum);
    assert_eq!(fp.hash, expected);
    assert_eq!(fp.size, 65536);
}

#[test]
fn two_window_boundary_no_overlap() {
    // Exactly two windows: the head is the first 65536 bytes, the tail the
    // last 65536, and no byte is counted twice.
    let data = patterned(131072);
    let fp = compute_fingerprint(&data);
    let expected = 131072u64
        .wrapping_add(reference_sum(&data[..65536]))
        .wrapping_add(reference_sum(&data[65536..]));
    assert_eq!(fp.hash, expected);
    assert_eq!(fp.size, 131072);
}

#[test]
fn partial_overlap_counts_shared_bytes_twice() {
    // Between one and two windows: the windows overlap in the middle and
    // the shared bytes are summed once per window.
    let data = patterned(100_000);
    let fp = compute_fingerprint(&data);
    let expected = 100_000u64
        .wrapping_add(reference_sum(&data[..65536]))
        .wrapping_add(reference_sum(&data[100_000 - 65536..]));
    assert_eq!(fp.hash, expected);
}

#[test]
fn zero_filled_window_hash_is_the_size() {
    let data = vec![0u8; 65536];
    let fp = compute_fingerprint(&data);
    assert_eq!(fp.hash, 0x10000);
    assert_eq!(fp.hex_hash(), "0000000000010000");
}

#[test]
fn trailing_partial_word_is_ignored() {
    // Twelve bytes: one whole word (value 1) and four trailing bytes that
    // no whole word covers; both windows are the entire file.
    let data = vec![1, 0, 0, 0, 0, 0, 0, 0, 9, 9, 9, 9];
    let fp = compute_fingerprint(&data);
    assert_eq!(fp.hash, 12 + 1 + 1);
}

#[test]
fn empty_content_hash_is_zero() {
    let fp = compute_fingerprint(&[]);
    assert_eq!(fp.hash, 0);
    assert_eq!(fp.size, 0);
    assert_eq!(fp.hex_hash(), "0000000000000000");
}

#[test]
fn window_form_matches_whole_content_form() {
    // A large file read as two windows gives the same fingerprint as the
    // same content handed over whole.
    let data = patterned(200_000);
    let whole = compute_fingerprint(&data);
    let head = &data[..65536];
    let tail = &data[data.len() - 65536..];
    let windowed = fingerprint_from_windows(data.len() as u64, head, tail);
    assert_eq!(whole, windowed);
}

#[test]
fn small_file_windows_are_the_whole_file() {
    let data = patterned(24);
    let whole = compute_fingerprint(&data);
    let windowed = fingerprint_from_windows(24, &data, &data);
    assert_eq!(whole, windowed);
}

#[test]
fn hex_rendering_is_fixed_width_lowercase() {
    let fp = FileFingerprint { hash: 0x8e245d9679d31e12, size: 733906744 };
    assert_eq!(fp.hex_hash(), "8e245d9679d31e12");
    let small = FileFingerprint { hash: 0xabc, size: 0 };
    assert_eq!(small.hex_hash(), "0000000000000abc");
    let max = FileFingerprint { hash: u64::MAX, size: 0 };
    assert_eq!(max.hex_hash(), "ffffffffffffffff");
}
