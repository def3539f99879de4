//! Content-addressed naming: a digest of the content, its leading six bytes
//! as twelve lowercase hex digits, and the destination path built from them.
use vstd::prelude::*;

verus! {

/// The BLAKE2s-256 digest of a byte sequence.
pub uninterp spec fn blake2s256_of(b: Seq<u8>) -> Seq<u8>;

/// Relies on `blake2::Blake2s256` through `digest::Digest::digest`: the
/// 32-byte BLAKE2s-256 digest of `data`, which depends on `data` alone.
#[verifier::external_body]
fn blake2s256(data: &[u8]) -> (r: [u8; 32])
    ensures
        r@ == blake2s256_of(data@),
{
    <blake2::Blake2s256 as blake2::Digest>::digest(data).into()
}

/// The lowercase hex digit of a value below 16.
pub open spec fn hex_digit(n: u8) -> char {
    match n {
        0 => '0',
        1 => '1',
        2 => '2',
        3 => '3',
        4 => '4',
        5 => '5',
        6 => '6',
        7 => '7',
        8 => '8',
        9 => '9',
        10 => 'a',
        11 => 'b',
        12 => 'c',
        13 => 'd',
        14 => 'e',
        _ => 'f',
    }
}

/// Two lowercase hex digits per byte, high nibble first.
pub open spec fn hex_of(b: Seq<u8>) -> Seq<char> {
    Seq::new(
        2 * b.len(),
        |k: int|
            if k % 2 == 0 {
                hex_digit(b[k / 2] / 16)
            } else {
                hex_digit(b[k / 2] % 16)
            },
    )
}

/// The file-name suffix of a digest: its leading six bytes in hex.
pub open spec fn suffix_spec(digest: Seq<u8>) -> Seq<char> {
    hex_of(digest.take(6))
}

/// `{prefix}-{suffix}.rs`, where the suffix comes from the content's digest.
pub open spec fn destination_path_spec(prefix: Seq<char>, content: Seq<u8>) -> Seq<char> {
    prefix + seq!['-'] + suffix_spec(blake2s256_of(content)) + seq!['.', 'r', 's']
}

pub(crate) fn hex_char(n: u8) -> (c: char)
    requires
        n < 16,
    ensures
        c == hex_digit(n),
{
    let table: [char; 16] = [
        '0', '1', '2', '3', '4', '5', '6', '7', '8', '9', 'a', 'b', 'c', 'd', 'e', 'f',
    ];
    table[n as usize]
}

/// Take the leading 6 bytes of a digest and render them as 12 lowercase hex digits.
pub fn make_suffix(digest: &[u8; 32]) -> (r: String)
    ensures
        r@ == suffix_spec(digest@),
{
    let mut s = String::new();
    let mut i: usize = 0;
    while i < 6
        invariant
            i <= 6,
            digest@.len() == 32,
            s@ =~= hex_of(digest@.take(i as int)),
        decreases 6 - i,
    {
        let byte = digest[i];
        s.push(hex_char(byte / 16));
        s.push(hex_char(byte % 16));
        i = i + 1;
        assert(s@ =~= hex_of(digest@.take(i as int)));
    }
    s
}

/// The file-name suffix for `content`: the hex of its digest's leading six bytes.
pub fn suffix_for(content: &[u8]) -> (r: String)
    ensures
        r@ == suffix_spec(blake2s256_of(content@)),
        blake2s256_of(content@).len() == 32,
{
    let digest = blake2s256(content);
    make_suffix(&digest)
}

/// The destination of `content`: `{prefix}-{suffix}.rs`, where `prefix` is the
/// output directory joined with the base name.
pub fn destination_path(prefix: &str, content: &[u8]) -> (r: String)
    ensures
        r@ == destination_path_spec(prefix@, content@),
        blake2s256_of(content@).len() == 32,
{
    let mut p = prefix.to_owned();
    p.push('-');
    let suffix = suffix_for(content);
    p.append(suffix.as_str());
    p.push('.');
    p.push('r');
    p.push('s');
    assert(p@ =~= destination_path_spec(prefix@, content@));
    p
}

proof fn lemma_hex_digit_injective(a: u8, b: u8)
    requires
        a < 16,
        b < 16,
        hex_digit(a) == hex_digit(b),
    ensures
        a == b,
{
}

/// Hex rendering loses nothing: equal renderings come from equal bytes.
pub proof fn lemma_hex_injective(a: Seq<u8>, b: Seq<u8>)
    requires
        hex_of(a) == hex_of(b),
    ensures
        a == b,
{
    assert(a.len() == b.len()) by {
        assert(hex_of(a).len() == 2 * a.len());
        assert(hex_of(b).len() == 2 * b.len());
    }
    assert forall|i: int| 0 <= i < a.len() implies a[i] == b[i] by {
        assert(hex_of(a)[2 * i] == hex_of(b)[2 * i]);
        assert(hex_of(a)[2 * i + 1] == hex_of(b)[2 * i + 1]);
        assert((2 * i) / 2 == i && (2 * i) % 2 == 0);
        assert((2 * i + 1) / 2 == i && (2 * i + 1) % 2 == 1);
        assert(hex_of(a)[2 * i] == hex_digit(a[i] / 16));
        assert(hex_of(b)[2 * i] == hex_digit(b[i] / 16));
        assert(hex_of(a)[2 * i + 1] == hex_digit(a[i] % 16));
        assert(hex_of(b)[2 * i + 1] == hex_digit(b[i] % 16));
        lemma_hex_digit_injective(a[i] / 16, b[i] / 16);
        lemma_hex_digit_injective(a[i] % 16, b[i] % 16);
    }
    assert(a =~= b);
}

/// Determinism: equal contents under equal prefixes are given the same path,
/// on every run and in every process.
pub proof fn lemma_path_deterministic(prefix: Seq<char>, c1: Seq<u8>, c2: Seq<u8>)
    requires
        c1 == c2,
    ensures
        destination_path_spec(prefix, c1) == destination_path_spec(prefix, c2),
        suffix_spec(blake2s256_of(c1)) == suffix_spec(blake2s256_of(c2)),
{
}

/// A lowercase hex digit.
pub open spec fn is_hex_lower(c: char) -> bool {
    ('0' <= c && c <= '9') || ('a' <= c && c <= 'f')
}

/// The shape of a destination: the prefix, a dash, twelve lowercase hex
/// digits and `.rs`.
pub proof fn lemma_path_shape(prefix: Seq<char>, content: Seq<u8>)
    requires
        blake2s256_of(content).len() == 32,
    ensures
        destination_path_spec(prefix, content).len() == prefix.len() + 16,
        destination_path_spec(prefix, content).subrange(0, prefix.len() as int) == prefix,
        destination_path_spec(prefix, content)[prefix.len() as int] == '-',
        forall|i: int|
            prefix.len() + 1 <= i < prefix.len() + 13 ==> is_hex_lower(#[trigger] destination_path_spec(prefix, content)[i]),
        destination_path_spec(prefix, content).subrange(prefix.len() as int + 13, prefix.len() as int + 16) == seq!['.', 'r', 's'],
{
    let p = destination_path_spec(prefix, content);
    let h = suffix_spec(blake2s256_of(content));
    let n = prefix.len() as int;
    assert(h.len() == 12);
    assert(p.subrange(0, n) =~= prefix);
    assert(p.subrange(n + 13, n + 16) =~= seq!['.', 'r', 's']);
    assert forall|i: int| n + 1 <= i < n + 13 implies is_hex_lower(#[trigger] p[i]) by {
        assert(p[i] == h[i - n - 1]);
    }
}

/// Collision avoidance: under one prefix, two contents share a path only when
/// the leading six bytes of their digests agree; so contents whose digests
/// differ there are given different paths.
pub proof fn lemma_distinct_paths(prefix: Seq<char>, c1: Seq<u8>, c2: Seq<u8>)
    requires
        blake2s256_of(c1).len() == 32,
        blake2s256_of(c2).len() == 32,
        blake2s256_of(c1).take(6) != blake2s256_of(c2).take(6),
    ensures
        destination_path_spec(prefix, c1) != destination_path_spec(prefix, c2),
{
    let d1 = blake2s256_of(c1).take(6);
    let d2 = blake2s256_of(c2).take(6);
    if destination_path_spec(prefix, c1) == destination_path_spec(prefix, c2) {
        let p1 = destination_path_spec(prefix, c1);
        let n: int = prefix.len() as int + 1;
        assert(hex_of(d1).len() == 12);
        assert(hex_of(d2).len() == 12);
        assert(p1.subrange(n, n + 12) =~= hex_of(d1));
        assert(destination_path_spec(prefix, c2).subrange(n, n + 12) =~= hex_of(d2));
        lemma_hex_injective(d1, d2);
    }
}

} // verus!
