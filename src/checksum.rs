//! Full and fast checksums of database snapshots.
//!
//! The fast checksum hashes the eight-byte little-endian size of the file,
//! then its first 64 KiB, then, for files above 128 KiB only, its last 64 KiB.
//! Its cost is bounded whatever the size of the file; bytes between the two
//! windows of a large file are deliberately not covered.
use vstd::prelude::*;

use sha2::Digest;

verus! {

/// Bytes hashed from the start of the file.
pub const WINDOW_BYTES: u64 = 65536;

/// Files larger than this also have their last window hashed.
pub const TAIL_THRESHOLD: u64 = 131072;

/// The lowercase hexadecimal SHA-256 digest of `data`.
pub uninterp spec fn sha256_hex(data: Seq<u8>) -> Seq<char>;

/// The characters that a lowercase hexadecimal digest is written with.
pub open spec fn is_lower_hex_digit(c: char) -> bool {
    ('0' <= c && c <= '9') || ('a' <= c && c <= 'f')
}

/// Relies on `sha2::Sha256::digest` (through `digest::Digest`) and on the
/// `LowerHex` formatting of generic-array 0.14: the 32 digest bytes written as
/// 64 lowercase hexadecimal digits, a function of `data` alone.
#[verifier::external_body]
fn sha256_hex_digest(data: &[u8]) -> (r: String)
    ensures
        r@ == sha256_hex(data@),
        r@.len() == 64,
        forall|i: int| 0 <= i < 64 ==> is_lower_hex_digit(#[trigger] r@[i]),
{
    format!("{:x}", sha2::Sha256::digest(data))
}

/// The `k` low-order bytes of `n`, least significant first.
pub open spec fn le_bytes(n: nat, k: nat) -> Seq<u8>
    decreases k,
{
    if k == 0 {
        Seq::empty()
    } else {
        seq![(n % 256) as u8] + le_bytes(n / 256, (k - 1) as nat)
    }
}

/// Number of bytes hashed from the start of a file of `n` bytes.
pub open spec fn head_len(n: nat) -> nat {
    if n < WINDOW_BYTES {
        n
    } else {
        WINDOW_BYTES as nat
    }
}

/// Whether the last window of a file of `n` bytes is hashed.
pub open spec fn has_tail(n: nat) -> bool {
    n > TAIL_THRESHOLD
}

/// Number of bytes hashed from the end of a file of `n` bytes.
pub open spec fn tail_len(n: nat) -> nat {
    if has_tail(n) {
        WINDOW_BYTES as nat
    } else {
        0
    }
}

/// The bytes hashed for a file of `size` bytes whose windows are `head` and `tail`.
pub open spec fn window_input(size: nat, head: Seq<u8>, tail: Seq<u8>) -> Seq<u8> {
    le_bytes(size, 8) + head + tail
}

/// The first window of `content`.
pub open spec fn head_of(content: Seq<u8>) -> Seq<u8> {
    content.subrange(0, head_len(content.len()) as int)
}

/// The last window of `content`, empty when it is not hashed.
pub open spec fn tail_of(content: Seq<u8>) -> Seq<u8> {
    let n = content.len();
    content.subrange(n - tail_len(n), n as int)
}

/// The logical bytes that the fast checksum of `content` covers.
pub open spec fn fast_checksum_input(content: Seq<u8>) -> Seq<u8> {
    window_input(content.len(), head_of(content), tail_of(content))
}

/// The fast checksum of a file holding `content`.
pub open spec fn fast_checksum_spec(content: Seq<u8>) -> Seq<char> {
    sha256_hex(fast_checksum_input(content))
}

/// Where the two windows of a file lie.
#[derive(Debug, Clone, Copy, PartialEq, Eq)]
pub struct ChecksumWindows {
    /// Bytes to read from offset zero.
    pub head_len: u64,
    /// Offset of the last window, when it is hashed; it runs to the end of the file.
    pub tail_start: Option<u64>,
}

/// The windows to read from a file of `size` bytes.
pub fn checksum_windows(size: u64) -> (r: ChecksumWindows)
    ensures
        r.head_len == head_len(size as nat),
        r.tail_start == (if has_tail(size as nat) {
            Some((size - WINDOW_BYTES) as u64)
        } else {
            None::<u64>
        }),
{
    let head_len = if size < WINDOW_BYTES {
        size
    } else {
        WINDOW_BYTES
    };
    let tail_start = if size > TAIL_THRESHOLD {
        Some(size - WINDOW_BYTES)
    } else {
        None
    };
    ChecksumWindows { head_len, tail_start }
}

/// The eight bytes of `n`, least significant first.
pub fn size_le_bytes(n: u64) -> (r: Vec<u8>)
    ensures
        r@ == le_bytes(n as nat, 8),
{
    let mut r: Vec<u8> = Vec::new();
    let mut v: u64 = n;
    let mut i: usize = 0;
    while i < 8
        invariant
            i <= 8,
            r@ + le_bytes(v as nat, (8 - i) as nat) == le_bytes(n as nat, 8),
        decreases 8 - i,
    {
        let ghost before = r@;
        let b = (v % 256) as u8;
        assert(le_bytes(v as nat, (8 - i) as nat) == seq![b] + le_bytes((v / 256) as nat, (
        8 - i - 1) as nat));
        r.push(b);
        v = v / 256;
        i = i + 1;
        assert(r@ + le_bytes(v as nat, (8 - i) as nat) =~= before + (seq![b] + le_bytes(
            v as nat,
            (8 - i) as nat,
        )));
    }
    assert(le_bytes(v as nat, 0) =~= Seq::<u8>::empty());
    assert(r@ + Seq::<u8>::empty() =~= r@);
    r
}

/// Appends `from[start..end]` to `out`.
fn push_range(out: &mut Vec<u8>, from: &[u8], start: usize, end: usize)
    requires
        start <= end <= from@.len(),
    ensures
        final(out)@ == old(out)@ + from@.subrange(start as int, end as int),
{
    let mut i: usize = start;
    while i < end
        invariant
            start <= i <= end <= from@.len(),
            out@ == old(out)@ + from@.subrange(start as int, i as int),
        decreases end - i,
    {
        out.push(from[i]);
        i = i + 1;
        assert(out@ =~= old(out)@ + from@.subrange(start as int, i as int)) by {
            assert(from@.subrange(start as int, i as int) =~= from@.subrange(
                start as int,
                i - 1,
            ).push(from@[i - 1]));
        }
    }
}

/// The SHA-256 checksum of a whole byte buffer, in lowercase hexadecimal.
pub fn calculate_checksum(data: &[u8]) -> (r: String)
    ensures
        r@ == sha256_hex(data@),
        r@.len() == 64,
        forall|i: int| 0 <= i < 64 ==> is_lower_hex_digit(#[trigger] r@[i]),
{
    sha256_hex_digest(data)
}

/// The fast checksum of a file of `size` bytes from the windows read out of it.
///
/// `head` must be the first `min(size, 64 KiB)` bytes and `tail`, for a file
/// above 128 KiB, its last 64 KiB (else empty); other lengths give `None`.
pub fn fast_checksum_from_windows(size: u64, head: &[u8], tail: &[u8]) -> (r: Option<String>)
    ensures
        r is Some <==> (head@.len() == head_len(size as nat) && tail@.len() == tail_len(
            size as nat,
        )),
        r matches Some(s) ==> s@ == sha256_hex(window_input(size as nat, head@, tail@))
            && s@.len() == 64 && forall|i: int| 0 <= i < 64 ==> is_lower_hex_digit(
            #[trigger] s@[i],
        ),
{
    let w = checksum_windows(size);
    let want_tail: usize = if w.tail_start.is_some() {
        WINDOW_BYTES as usize
    } else {
        0
    };
    if head.len() as u64 != w.head_len || tail.len() != want_tail {
        return None;
    }
    let mut input = size_le_bytes(size);
    push_range(&mut input, head, 0, head.len());
    push_range(&mut input, tail, 0, tail.len());
    assert(head@.subrange(0, head@.len() as int) =~= head@);
    assert(tail@.subrange(0, tail@.len() as int) =~= tail@);
    Some(sha256_hex_digest(input.as_slice()))
}

/// The fast checksum of a file that holds `content`.
pub fn fast_checksum_of_bytes(content: &[u8]) -> (r: String)
    ensures
        r@ == fast_checksum_spec(content@),
        r@.len() == 64,
        forall|i: int| 0 <= i < 64 ==> is_lower_hex_digit(#[trigger] r@[i]),
{
    let n = content.len();
    let size = n as u64;
    let w = checksum_windows(size);
    let mut input = size_le_bytes(size);
    push_range(&mut input, content, 0, w.head_len as usize);
    let tail_from: usize = match w.tail_start {
        Some(t) => t as usize,
        None => n,
    };
    push_range(&mut input, content, tail_from, n);
    sha256_hex_digest(input.as_slice())
}

/// The fast checksum reads only the two windows: from the windows of a file,
/// and from the whole file, it gives the same bytes to hash.
pub proof fn lemma_windows_match_content(content: Seq<u8>)
    requires
        content.len() <= u64::MAX,
    ensures
        window_input(content.len(), head_of(content), tail_of(content)) == fast_checksum_input(
            content,
        ),
        head_of(content).len() == head_len(content.len()),
        tail_of(content).len() == tail_len(content.len()),
{
}

/// Up to 128 KiB, the fast checksum covers the eight size bytes and
/// `min(size, 64 KiB)` bytes of content, and nothing else.
pub proof fn lemma_small_file_coverage(content: Seq<u8>)
    requires
        content.len() <= TAIL_THRESHOLD,
    ensures
        fast_checksum_input(content).len() == 8 + head_len(content.len()),
        fast_checksum_input(content) == le_bytes(content.len(), 8) + content.subrange(
            0,
            head_len(content.len()) as int,
        ),
{
    lemma_le_bytes_len(content.len(), 8);
    assert(tail_of(content) =~= Seq::<u8>::empty());
    assert(fast_checksum_input(content) =~= le_bytes(content.len(), 8) + content.subrange(
        0,
        head_len(content.len()) as int,
    ));
}

/// `le_bytes(n, k)` has `k` bytes.
pub proof fn lemma_le_bytes_len(n: nat, k: nat)
    ensures
        le_bytes(n, k).len() == k,
    decreases k,
{
    if k > 0 {
        lemma_le_bytes_len(n / 256, (k - 1) as nat);
    }
}

/// Above 128 KiB, a change confined to the bytes between the two windows
/// leaves the fast checksum as it was.
pub proof fn lemma_middle_change_unseen(a: Seq<u8>, b: Seq<u8>)
    requires
        a.len() == b.len(),
        a.len() > TAIL_THRESHOLD,
        forall|i: int|
            0 <= i < a.len() && (i < WINDOW_BYTES || i >= a.len() - WINDOW_BYTES) ==> a[i]
                == b[i],
    ensures
        fast_checksum_spec(a) == fast_checksum_spec(b),
{
    assert(head_of(a) =~= head_of(b));
    assert(tail_of(a) =~= tail_of(b));
}

/// Above 128 KiB, a change to the last byte changes the bytes that the fast
/// checksum hashes.
pub proof fn lemma_last_byte_change_seen(a: Seq<u8>, b: Seq<u8>)
    requires
        a.len() == b.len(),
        a.len() > TAIL_THRESHOLD,
        a[a.len() - 1] != b[b.len() - 1],
    ensures
        fast_checksum_input(a) != fast_checksum_input(b),
{
    let n = a.len();
    lemma_le_bytes_len(n, 8);
    let ia = fast_checksum_input(a);
    let ib = fast_checksum_input(b);
    assert(ia.len() == 8 + WINDOW_BYTES + WINDOW_BYTES);
    assert(ia[ia.len() - 1] == a[n - 1]);
    assert(ib[ib.len() - 1] == b[n - 1]);
}

/// A change inside the first window changes the bytes that the fast checksum
/// hashes, whatever the size of the file.
pub proof fn lemma_head_change_seen(a: Seq<u8>, b: Seq<u8>, i: int)
    requires
        a.len() == b.len(),
        0 <= i < a.len(),
        i < WINDOW_BYTES,
        a[i] != b[i],
    ensures
        fast_checksum_input(a) != fast_checksum_input(b),
{
    lemma_le_bytes_len(a.len(), 8);
    assert(fast_checksum_input(a)[8 + i] == a[i]);
    assert(fast_checksum_input(b)[8 + i] == b[i]);
}

} // verus!
