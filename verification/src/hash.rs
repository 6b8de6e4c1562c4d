//! Checksums of contents, and their text form.
use vstd::prelude::*;

verus! {

/// How long a content can be for its checksum: its bits are counted in 64 bits.
pub const LONGEST_CONTENT: u64 = 0x1fff_ffff_ffff_ffff;

/// The SHA-1 digest of a content.
pub uninterp spec fn sha1_of(content: Seq<u8>) -> Seq<u8>;

/// `sha1::Sha1::digest`: 20 bytes that depend on the content alone. A content whose bits
/// cannot be counted in 64 bits is left out.
#[verifier::external_body]
fn sha1_digest(content: &[u8]) -> (r: Vec<u8>)
    requires
        content@.len() <= LONGEST_CONTENT,
    ensures
        r@ == sha1_of(content@),
        r@.len() == 20,
{
    <sha1::Sha1 as sha1::Digest>::digest(content).to_vec()
}

/// The checksum of a content, by which files with the same content are known.
pub fn content_checksum(content: &[u8]) -> (r: Vec<u8>)
    requires
        content@.len() <= LONGEST_CONTENT,
    ensures
        r@ == sha1_of(content@),
        r@.len() == 20,
{
    sha1_digest(content)
}

/// The character of one hexadecimal digit, in lower case.
pub open spec fn hex_char(digit: int) -> char {
    if digit < 10 {
        (48 + digit) as char
    } else {
        (87 + digit) as char
    }
}

/// Bytes in hexadecimal: two lower-case digits each, the high one first.
pub open spec fn hex_text(bytes: Seq<u8>) -> Seq<char> {
    Seq::new(
        2 * bytes.len(),
        |i: int|
            if i % 2 == 0 {
                hex_char(bytes[i / 2] as int / 16)
            } else {
                hex_char(bytes[i / 2] as int % 16)
            },
    )
}

fn hex_digit(digit: u8) -> (r: char)
    requires
        digit < 16,
    ensures
        r == hex_char(digit as int),
{
    if digit < 10 {
        (48u8 + digit) as char
    } else {
        (87u8 + digit) as char
    }
}

/// A checksum in hexadecimal.
pub fn checksum_to_hex(checksum: &[u8]) -> (r: String)
    ensures
        r@ == hex_text(checksum@),
{
    let mut r: String = String::new();
    let mut i: usize = 0;
    while i < checksum.len()
        invariant
            i <= checksum.len(),
            r@ == hex_text(checksum@).take(2 * i),
        decreases checksum.len() - i,
    {
        let byte: u8 = checksum[i];
        r.push(hex_digit(byte / 16));
        r.push(hex_digit(byte % 16));
        proof {
            let all = hex_text(checksum@);
            assert((2 * i) / 2 == i && (2 * i + 1) / 2 == i);
            assert(all.take(2 * (i + 1)) =~= all.take(2 * i).push(all[2 * i]).push(all[2 * i + 1]));
        }
        i = i + 1;
    }
    assert(r@ =~= hex_text(checksum@));
    r
}

/// The number that a hexadecimal digit stands for.
pub open spec fn hex_value(c: char) -> int {
    if '0' <= c <= '9' {
        c as int - '0' as int
    } else {
        c as int - 'a' as int + 10
    }
}

/// A checksum is written with two digits for each byte, in order, and they stand for that
/// byte. Every digit is one of `0` to `9` and `a` to `f`.
pub proof fn digits_stand_for_their_bytes(bytes: Seq<u8>, i: int)
    requires
        0 <= i < bytes.len(),
    ensures
        hex_text(bytes).len() == 2 * bytes.len(),
        16 * hex_value(hex_text(bytes)[2 * i]) + hex_value(hex_text(bytes)[2 * i + 1]) == bytes[i],
        '0' <= hex_text(bytes)[2 * i] <= '9' || 'a' <= hex_text(bytes)[2 * i] <= 'f',
        '0' <= hex_text(bytes)[2 * i + 1] <= '9' || 'a' <= hex_text(bytes)[2 * i + 1] <= 'f',
{
    assert((2 * i) / 2 == i && (2 * i + 1) / 2 == i && (2 * i) % 2 == 0 && (2 * i + 1) % 2 == 1);
    let high = bytes[i] as int / 16;
    let low = bytes[i] as int % 16;
    assert(hex_text(bytes)[2 * i] == hex_char(high));
    assert(hex_text(bytes)[2 * i + 1] == hex_char(low));
    assert(hex_char(high) as int == if high < 10 {
        48 + high
    } else {
        87 + high
    });
    assert(hex_char(low) as int == if low < 10 {
        48 + low
    } else {
        87 + low
    });
}

/// Different checksums have different hexadecimal forms.
pub proof fn hex_tells_checksums_apart(a: Seq<u8>, b: Seq<u8>)
    requires
        hex_text(a) == hex_text(b),
    ensures
        a == b,
{
    assert(hex_text(a).len() == 2 * a.len());
    assert(hex_text(b).len() == 2 * b.len());
    assert forall|i: int| 0 <= i < a.len() implies a[i] == b[i] by {
        assert((2 * i) / 2 == i && (2 * i + 1) / 2 == i && (2 * i) % 2 == 0 && (2 * i + 1) % 2
            == 1);
        assert(hex_text(a)[2 * i] == hex_char(a[i] as int / 16));
        assert(hex_text(b)[2 * i] == hex_char(b[i] as int / 16));
        assert(hex_text(a)[2 * i + 1] == hex_char(a[i] as int % 16));
        assert(hex_text(b)[2 * i + 1] == hex_char(b[i] as int % 16));
        assert(hex_char(a[i] as int / 16) as int == hex_char(b[i] as int / 16) as int);
        assert(hex_char(a[i] as int % 16) as int == hex_char(b[i] as int % 16) as int);
    }
    assert(a =~= b);
}

} // verus!
