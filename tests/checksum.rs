use store_backup::checksum::{
    calculate_checksum, checksum_windows, fast_checksum_from_windows, fast_checksum_of_bytes,
    size_le_bytes, ChecksumWindows,
};

fn content(n: usize) -> Vec<u8> {
    (0..n).map(|i| (i * 31 % 251) as u8).collect()
}

fn is_lower_hex(s: &str) -> bool {
    s.len() == 64 && s.chars().all(|c| c.is_ascii_digit() || ('a'..='f').contains(&c))
}

#[test]
fn full_checksum_of_known_input() {
    assert_eq!(
        calculate_checksum(b"abc"),
        "ba7816bf8f01cfea414140de5dae2223b00361a396177a9cb410ff61f20015ad"
    );
    assert_eq!(
        calculate_checksum(b""),
        "e3b0c44298fc1c149afbf4c8996fb92427ae41e4649b934ca495991b7852b855"
    );
}

#[test]
fn size_bytes_are_little_endian() {
    assert_eq!(size_le_bytes(0x0102030405060708), vec![8, 7, 6, 5, 4, 3, 2, 1]);
    assert_eq!(size_le_bytes(0), vec![0; 8]);
    assert_eq!(size_le_bytes(u64::MAX), vec![255; 8]);
    assert_eq!(size_le_bytes(500_000), 500_000u64.to_le_bytes().to_vec());
}

#[test]
fn windows_by_size() {
    assert_eq!(checksum_windows(0), ChecksumWindows { head_len: 0, tail_start: None });
    assert_eq!(checksum_windows(1000), ChecksumWindows { head_len: 1000, tail_start: None });
    assert_eq!(checksum_windows(65536), ChecksumWindows { head_len: 65536, tail_start: None });
    assert_eq!(checksum_windows(131072), ChecksumWindows { head_len: 65536, tail_start: None });
    assert_eq!(
        checksum_windows(131073),
        ChecksumWindows { head_len: 65536, tail_start: Some(65537) }
    );
    assert_eq!(
        checksum_windows(500_000),
        ChecksumWindows { head_len: 65536, tail_start: Some(434_464) }
    );
}

#[test]
fn small_file_covers_size_and_whole_content() {
    let c = content(2000);
    let mut input = 2000u64.to_le_bytes().to_vec();
    input.extend_from_slice(&c);
    assert_eq!(input.len(), 8 + 2000);
    assert_eq!(fast_checksum_of_bytes(&c), calculate_checksum(&input));
}

#[test]
fn mid_size_file_covers_size_and_first_window() {
    let c = content(100_000);
    let mut input = 100_000u64.to_le_bytes().to_vec();
    input.extend_from_slice(&c[..65536]);
    assert_eq!(input.len(), 8 + 65536);
    assert_eq!(fast_checksum_of_bytes(&c), calculate_checksum(&input));
}

#[test]
fn large_file_covers_both_windows() {
    let c = content(200_000);
    let mut input = 200_000u64.to_le_bytes().to_vec();
    input.extend_from_slice(&c[..65536]);
    input.extend_from_slice(&c[200_000 - 65536..]);
    assert_eq!(fast_checksum_of_bytes(&c), calculate_checksum(&input));
}

#[test]
fn size_is_part_of_the_checksum() {
    let c = content(5000);
    let plain = calculate_checksum(&c);
    assert_ne!(fast_checksum_of_bytes(&c), plain);
    assert!(is_lower_hex(&fast_checksum_of_bytes(&c)));
}

#[test]
fn last_byte_change_is_seen_above_threshold() {
    let a = content(200_000);
    let mut b = a.clone();
    b[199_999] ^= 0xff;
    assert_ne!(fast_checksum_of_bytes(&a), fast_checksum_of_bytes(&b));
}

#[test]
fn middle_byte_change_is_not_seen_above_threshold() {
    let a = content(200_000);
    let mut b = a.clone();
    b[100_000] ^= 0xff;
    assert_eq!(fast_checksum_of_bytes(&a), fast_checksum_of_bytes(&b));
}

#[test]
fn head_byte_change_is_seen() {
    let a = content(200_000);
    let mut b = a.clone();
    b[10] ^= 0x01;
    assert_ne!(fast_checksum_of_bytes(&a), fast_checksum_of_bytes(&b));
}

#[test]
fn windows_agree_with_whole_content() {
    let c = content(300_000);
    let w = checksum_windows(300_000);
    let head = &c[..w.head_len as usize];
    let tail = &c[w.tail_start.unwrap() as usize..];
    assert_eq!(
        fast_checksum_from_windows(300_000, head, tail),
        Some(fast_checksum_of_bytes(&c))
    );
    let small = content(4000);
    assert_eq!(
        fast_checksum_from_windows(4000, &small, &[]),
        Some(fast_checksum_of_bytes(&small))
    );
}

#[test]
fn windows_of_wrong_length_are_refused() {
    let c = content(300_000);
    assert_eq!(fast_checksum_from_windows(300_000, &c[..65535], &c[..65536]), None);
    assert_eq!(fast_checksum_from_windows(300_000, &c[..65536], &[]), None);
    assert_eq!(fast_checksum_from_windows(100_000, &c[..65536], &c[..10]), None);
    assert_eq!(fast_checksum_from_windows(4000, &c[..3999], &[]), None);
}
