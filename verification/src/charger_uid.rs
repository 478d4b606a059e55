//! Charger UIDs as the frontend prints them: z-base-32 above a cutoff,
//! Flickr-base58 at or below it.

use vstd::prelude::*;
use vstd::string::*;

use crate::text::{ascii_lowercase, string_from_chars, to_ascii_lowercase};

verus! {

/// UIDs above this value are written in z-base-32, the others in Flickr-base58.
pub const ZBASE32_UID_THRESHOLD: u32 = 257_899;

/// The symbol of the z-base-32 alphabet (RFC 6189) at position `i`.
pub open spec fn zbase32_symbol_at(i: int) -> char {
    if i == 0 { 'y' } else if i == 1 { 'b' } else if i == 2 { 'n' } else if i == 3 { 'd' }
    else if i == 4 { 'r' } else if i == 5 { 'f' } else if i == 6 { 'g' } else if i == 7 { '8' }
    else if i == 8 { 'e' } else if i == 9 { 'j' } else if i == 10 { 'k' } else if i == 11 { 'm' }
    else if i == 12 { 'c' } else if i == 13 { 'p' } else if i == 14 { 'q' } else if i == 15 { 'x' }
    else if i == 16 { 'o' } else if i == 17 { 't' } else if i == 18 { '1' } else if i == 19 { 'u' }
    else if i == 20 { 'w' } else if i == 21 { 'i' } else if i == 22 { 's' } else if i == 23 { 'z' }
    else if i == 24 { 'a' } else if i == 25 { '3' } else if i == 26 { '4' } else if i == 27 { '5' }
    else if i == 28 { 'h' } else if i == 29 { '7' } else if i == 30 { '6' } else { '9' }
}

/// Whether `c` (after ASCII lower-casing) is a z-base-32 symbol.
pub open spec fn is_zbase32_char(c: char) -> bool {
    exists|i: int| 0 <= i < 32 && zbase32_symbol_at(i) == ascii_lowercase(c)
}

/// The digit value of a z-base-32 character.
pub open spec fn zbase32_digit(c: char) -> int
    recommends is_zbase32_char(c),
{
    choose|i: int| 0 <= i < 32 && zbase32_symbol_at(i) == ascii_lowercase(c)
}

/// The symbols are pairwise distinct, so a digit names exactly one symbol.
proof fn lemma_zbase32_symbols_distinct()
    ensures
        forall|i: int, j: int|
            0 <= i < 32 && 0 <= j < 32 && i != j ==> zbase32_symbol_at(i) != zbase32_symbol_at(j),
{
}

/// The digit of the symbol at position `i` is `i`.
pub proof fn lemma_zbase32_digit_of_symbol(i: int)
    requires
        0 <= i < 32,
    ensures
        is_zbase32_char(zbase32_symbol_at(i)),
        zbase32_digit(zbase32_symbol_at(i)) == i,
{
    lemma_zbase32_symbols_distinct();
    let c = zbase32_symbol_at(i);
    assert(ascii_lowercase(c) == c);
    assert(is_zbase32_char(c));
    let d = zbase32_digit(c);
    assert(zbase32_symbol_at(d) == c);
}

/// The z-base-32 symbol at position `index`.
fn zbase32_symbol(index: u32) -> (c: char)
    requires
        index < 32,
    ensures
        c == zbase32_symbol_at(index as int),
{
    match index {
        0 => 'y',
        1 => 'b',
        2 => 'n',
        3 => 'd',
        4 => 'r',
        5 => 'f',
        6 => 'g',
        7 => '8',
        8 => 'e',
        9 => 'j',
        10 => 'k',
        11 => 'm',
        12 => 'c',
        13 => 'p',
        14 => 'q',
        15 => 'x',
        16 => 'o',
        17 => 't',
        18 => '1',
        19 => 'u',
        20 => 'w',
        21 => 'i',
        22 => 's',
        23 => 'z',
        24 => 'a',
        25 => '3',
        26 => '4',
        27 => '5',
        28 => 'h',
        29 => '7',
        30 => '6',
        _ => '9',
    }
}

/// The digit of `c` in z-base-32, ignoring ASCII case, or `None` when `c`
/// is not in the alphabet.
fn zbase32_digit_of(c: char) -> (d: Option<u32>)
    ensures
        match d {
            Some(v) => is_zbase32_char(c) && v == zbase32_digit(c) && v < 32,
            None => !is_zbase32_char(c),
        },
{
    let lower = to_ascii_lowercase(c);
    let mut i: u32 = 0;
    while i < 32
        invariant
            i <= 32,
            lower == ascii_lowercase(c),
            forall|j: int| 0 <= j < i ==> zbase32_symbol_at(j) != lower,
        decreases 32 - i,
    {
        if zbase32_symbol(i) == lower {
            proof {
                lemma_zbase32_symbols_distinct();
                assert(is_zbase32_char(c));
                let k = zbase32_digit(c);
                assert(zbase32_symbol_at(k) == lower);
            }
            return Some(i);
        }
        i = i + 1;
    }
    None
}

/// Every character of `s` is a z-base-32 symbol (ignoring ASCII case).
pub open spec fn all_zbase32(s: Seq<char>) -> bool {
    forall|i: int| 0 <= i < s.len() ==> is_zbase32_char(#[trigger] s[i])
}

/// The number that the z-base-32 digits of `s` denote, most significant first.
pub open spec fn zbase32_value(s: Seq<char>) -> nat
    decreases s.len(),
{
    if s.len() == 0 {
        0
    } else {
        zbase32_value(s.drop_last()) * 32 + zbase32_digit(s.last()) as nat
    }
}

/// What decoding `s` gives: its value when every character is a z-base-32
/// symbol and the value fits in a `u32`, otherwise nothing.
pub open spec fn zbase32_decoded(s: Seq<char>) -> Option<u32> {
    if all_zbase32(s) && zbase32_value(s) <= u32::MAX {
        Some(zbase32_value(s) as u32)
    } else {
        None
    }
}

/// The shortest z-base-32 spelling of `v`; zero is the single symbol `y`.
pub open spec fn zbase32_encoded(v: nat) -> Seq<char>
    decreases v,
{
    if v < 32 {
        seq![zbase32_symbol_at(v as int)]
    } else {
        zbase32_encoded(v / 32).push(zbase32_symbol_at((v % 32) as int))
    }
}

/// A prefix of a z-base-32 string never denotes more than the whole string.
proof fn lemma_zbase32_prefix_value_le(s: Seq<char>, k: int)
    requires
        all_zbase32(s),
        0 <= k <= s.len(),
    ensures
        zbase32_value(s.take(k)) <= zbase32_value(s),
    decreases s.len(),
{
    if k == s.len() {
        assert(s.take(k) =~= s);
    } else {
        let p = s.drop_last();
        assert(all_zbase32(p)) by {
            assert forall|i: int| 0 <= i < p.len() implies is_zbase32_char(#[trigger] p[i]) by {
                assert(p[i] == s[i]);
            }
        }
        lemma_zbase32_prefix_value_le(p, k);
        assert(p.take(k) =~= s.take(k));
    }
}

/// Extending a z-base-32 prefix by one character.
proof fn lemma_zbase32_take_step(s: Seq<char>, i: int)
    requires
        0 <= i < s.len(),
    ensures
        zbase32_value(s.take(i + 1)) == zbase32_value(s.take(i)) * 32 + zbase32_digit(s[i]) as nat,
{
    let t = s.take(i + 1);
    assert(t.drop_last() =~= s.take(i));
    assert(t.last() == s[i]);
}

/// Decode a z-base-32 string to a `u32`, ignoring ASCII case. Returns `None`
/// when a character is outside the alphabet or the value does not fit in a
/// `u32`.
pub fn zbase32_decode(input: &str) -> (r: Option<u32>)
    ensures
        r == zbase32_decoded(input@),
{
    let n = input.unicode_len();
    let mut value: u32 = 0;
    let mut i: usize = 0;
    assert(input@.take(0) =~= Seq::<char>::empty());
    while i < n
        invariant
            n == input@.len(),
            i <= n,
            all_zbase32(input@.take(i as int)),
            value == zbase32_value(input@.take(i as int)),
        decreases n - i,
    {
        let c = input.get_char(i);
        let d = match zbase32_digit_of(c) {
            Some(d) => d,
            None => {
                assert(!all_zbase32(input@));
                return None;
            },
        };
        proof {
            lemma_zbase32_take_step(input@, i as int);
        }
        if value > (u32::MAX - d) / 32 {
            proof {
                if all_zbase32(input@) {
                    lemma_zbase32_prefix_value_le(input@, i + 1);
                }
            }
            return None;
        }
        value = value * 32 + d;
        assert(all_zbase32(input@.take(i + 1))) by {
            let t = input@.take(i + 1);
            assert forall|j: int| 0 <= j < t.len() implies is_zbase32_char(#[trigger] t[j]) by {
                if j < i {
                    assert(t[j] == input@.take(i as int)[j]);
                }
            }
        }
        i = i + 1;
    }
    assert(input@.take(n as int) =~= input@);
    Some(value)
}

/// Appends the z-base-32 spelling of `value` to `out`.
fn push_zbase32(value: u32, out: &mut Vec<char>)
    ensures
        final(out)@ == old(out)@ + zbase32_encoded(value as nat),
    decreases value,
{
    if value >= 32 {
        push_zbase32(value / 32, out);
    }
    let c = zbase32_symbol(value % 32);
    out.push(c);
    proof {
        if value >= 32 {
            assert(zbase32_encoded(value as nat) == zbase32_encoded((value / 32) as nat).push(c));
        } else {
            assert(zbase32_encoded(value as nat) =~= seq![c]);
        }
    }
}

/// Encode a `u32` as z-base-32 (RFC 6189); 0 encodes to `"y"`.
pub fn zbase32_encode(value: u32) -> (s: String)
    ensures
        s@ == zbase32_encoded(value as nat),
{
    let mut chars: Vec<char> = Vec::new();
    push_zbase32(value, &mut chars);
    assert(chars@ =~= zbase32_encoded(value as nat));
    string_from_chars(&chars)
}

/// The spelling of `v` consists of symbols and denotes `v`.
pub proof fn lemma_zbase32_encoded_value(v: nat)
    ensures
        all_zbase32(zbase32_encoded(v)),
        zbase32_value(zbase32_encoded(v)) == v,
    decreases v,
{
    let s = zbase32_encoded(v);
    if v < 32 {
        lemma_zbase32_digit_of_symbol(v as int);
        assert(s.drop_last() =~= Seq::<char>::empty());
        assert(s.last() == zbase32_symbol_at(v as int));
        assert(zbase32_value(s.drop_last()) == 0);
    } else {
        lemma_zbase32_encoded_value(v / 32);
        lemma_zbase32_digit_of_symbol((v % 32) as int);
        let p = zbase32_encoded(v / 32);
        assert(s.drop_last() =~= p);
        assert(s.last() == zbase32_symbol_at((v % 32) as int));
        assert(v == (v / 32) * 32 + v % 32);
        assert forall|i: int| 0 <= i < s.len() implies is_zbase32_char(#[trigger] s[i]) by {
            if i < p.len() {
                assert(s[i] == p[i]);
            }
        }
    }
}

/// Law: decoding the z-base-32 spelling of any `u32` gives that number back.
pub proof fn lemma_zbase32_round_trip(v: u32)
    ensures
        zbase32_decoded(zbase32_encoded(v as nat)) == Some(v),
{
    lemma_zbase32_encoded_value(v as nat);
}

/// Name for what `bs58::decode(s).with_alphabet(bs58::Alphabet::FLICKR).into_vec()`
/// returns for the string `s`: the decoded bytes, or nothing when decoding fails.
pub uninterp spec fn flickr_base58_decoded(s: Seq<char>) -> Option<Seq<u8>>;

/// Name for what `bs58::encode(bytes).with_alphabet(bs58::Alphabet::FLICKR).into_string()`
/// returns for `bytes`.
pub uninterp spec fn flickr_base58_encoded(bytes: Seq<u8>) -> Seq<char>;

/// Whether `c` is a symbol of the Flickr-base58 alphabet
/// `123456789abcdefghijkmnopqrstuvwxyzABCDEFGHJKLMNPQRSTUVWXYZ`.
pub open spec fn in_flickr_alphabet(c: char) -> bool {
    ||| ('1' <= c && c <= '9')
    ||| ('a' <= c && c <= 'z' && c != 'l')
    ||| ('A' <= c && c <= 'Z' && c != 'I' && c != 'O')
}

/// Calls `bs58::decode` with the Flickr alphabet. Trusted: the result is the
/// named decoding of `s`; `None` stands for any `bs58::decode::Error`, which
/// a character outside the alphabet always gives.
#[verifier::external_body]
pub(crate) fn flickr_base58_decode(s: &str) -> (r: Option<Vec<u8>>)
    ensures
        (exists|i: int| 0 <= i < s@.len() && !in_flickr_alphabet(#[trigger] s@[i])) ==> r is None,
        match r {
            Some(v) => flickr_base58_decoded(s@) == Some(v@),
            None => flickr_base58_decoded(s@) is None,
        },
{
    bs58::decode(s).with_alphabet(bs58::Alphabet::FLICKR).into_vec().ok()
}

/// Calls `bs58::encode` with the Flickr alphabet. Trusted: the result is the
/// named encoding of `bytes`, and decoding it with the same alphabet gives
/// `bytes` back (leading zero bytes are written as leading `1`s and read back
/// as zero bytes).
#[verifier::external_body]
fn flickr_base58_encode(bytes: &[u8]) -> (s: String)
    ensures
        s@ == flickr_base58_encoded(bytes@),
        flickr_base58_decoded(s@) == Some(bytes@),
{
    bs58::encode(bytes).with_alphabet(bs58::Alphabet::FLICKR).into_string()
}

/// The `k`-th byte of `b` counted from its end (0 is the last byte), or 0
/// past its start.
pub open spec fn byte_from_end(b: Seq<u8>, k: int) -> int {
    if 0 <= k < b.len() { b[b.len() - 1 - k] as int } else { 0 }
}

/// The UID that Flickr-base58 bytes stand for: the last (at most) four bytes
/// read big-endian, as a two's-complement `i32`. Earlier bytes are ignored.
pub open spec fn uid_of_base58_bytes(b: Seq<u8>) -> i32 {
    (byte_from_end(b, 0) + byte_from_end(b, 1) * 256 + byte_from_end(b, 2) * 65536
        + byte_from_end(b, 3) * 16777216) as u32 as i32
}

/// The big-endian bytes of `uid` (as `i32::to_be_bytes` gives them).
pub open spec fn i32_be_bytes(uid: i32) -> Seq<u8> {
    let u = uid as u32;
    seq![(u / 16777216) as u8, ((u / 65536) % 256) as u8, ((u / 256) % 256) as u8, (u % 256) as u8]
}

/// Whether Flickr-base58 bytes fit in four bytes: every byte before the
/// last four is zero.
pub open spec fn base58_bytes_fit(b: Seq<u8>) -> bool {
    !(exists|k: int| 4 <= k < b.len() && byte_from_end(b, k) != 0)
}

/// What decoding a charger UID string gives: a z-base-32 reading that lies
/// above the cutoff wins; otherwise the Flickr-base58 reading, if it fits
/// in an `i32`.
pub open spec fn charger_uid_decoded(s: Seq<char>) -> Option<i32> {
    if zbase32_decoded(s) is Some && zbase32_decoded(s)->0 > ZBASE32_UID_THRESHOLD {
        Some(zbase32_decoded(s)->0 as i32)
    } else {
        match flickr_base58_decoded(s) {
            Some(b) => if base58_bytes_fit(b) { Some(uid_of_base58_bytes(b)) } else { None },
            None => None,
        }
    }
}

/// Whether the bytes of a Flickr-base58 decoding fit in four bytes.
pub fn base58_fits_i32(bytes: &[u8]) -> (r: bool)
    ensures
        r == base58_bytes_fit(bytes@),
{
    let n = bytes.len();
    if n <= 4 {
        return true;
    }
    let mut i: usize = 0;
    while i < n - 4
        invariant
            n == bytes@.len(),
            n > 4,
            i <= n - 4,
            forall|k: int| n - 1 - i < k < n && 4 <= k ==> byte_from_end(bytes@, k) == 0,
        decreases n - 4 - i,
    {
        if bytes[i] != 0 {
            assert(byte_from_end(bytes@, n - 1 - i) != 0);
            return false;
        }
        i = i + 1;
    }
    true
}

/// How the frontend writes a charger UID: z-base-32 above the cutoff,
/// Flickr-base58 of the big-endian bytes at or below it.
pub open spec fn charger_uid_encoded(uid: i32) -> Seq<char> {
    if uid > ZBASE32_UID_THRESHOLD as i32 {
        zbase32_encoded(uid as nat)
    } else {
        flickr_base58_encoded(i32_be_bytes(uid))
    }
}

/// The number that bytes stand for read big-endian (the first byte most
/// significant); no bytes stand for zero.
pub open spec fn be_value(b: Seq<u8>) -> nat
    decreases b.len(),
{
    if b.len() == 0 {
        0
    } else {
        be_value(b.drop_last()) * 256 + b.last() as nat
    }
}

/// Reading Flickr-base58 bytes gives their big-endian value, however many
/// of them there are (up to four, or more when the extra leading bytes are
/// zero), as long as that value fits a non-negative `i32`: each of the last
/// four bytes counts with its place.
pub proof fn lemma_base58_bytes_read_big_endian(b: Seq<u8>)
    requires
        b.len() <= 4,
        be_value(b) < 0x8000_0000,
    ensures
        uid_of_base58_bytes(b) == be_value(b),
{
    reveal_with_fuel(be_value, 5);
    let v = byte_from_end(b, 0) + byte_from_end(b, 1) * 256 + byte_from_end(b, 2) * 65536
        + byte_from_end(b, 3) * 16777216;
    if b.len() == 0 {
        assert(v == 0);
    } else if b.len() == 1 {
        assert(b.drop_last().len() == 0);
        assert(v == b[0]);
    } else if b.len() == 2 {
        assert(b.drop_last().drop_last().len() == 0);
        assert(v == b[0] * 256 + b[1]);
        assert(be_value(b) == be_value(b.drop_last()) * 256 + b[1]);
        assert(be_value(b.drop_last()) == b[0]);
    } else if b.len() == 3 {
        let b1 = b.drop_last();
        let b2 = b1.drop_last();
        assert(b2.drop_last().len() == 0);
        assert(be_value(b2) == b[0]);
        assert(be_value(b1) == b[0] * 256 + b[1]);
        assert(be_value(b) == (b[0] * 256 + b[1]) * 256 + b[2]);
        assert(v == b[0] * 65536 + b[1] * 256 + b[2]);
    } else {
        let b1 = b.drop_last();
        let b2 = b1.drop_last();
        let b3 = b2.drop_last();
        assert(b3.drop_last().len() == 0);
        assert(be_value(b3) == b[0]);
        assert(be_value(b2) == b[0] * 256 + b[1]);
        assert(be_value(b1) == (b[0] * 256 + b[1]) * 256 + b[2]);
        assert(be_value(b) == ((b[0] * 256 + b[1]) * 256 + b[2]) * 256 + b[3]);
        assert(v == b[0] * 16777216 + b[1] * 65536 + b[2] * 256 + b[3]);
    }
    assert(0 <= v < 0x8000_0000);
    let w = v as u32;
    assert(w == v);
    assert((w as i32) == w) by (bit_vector)
        requires
            w < 0x8000_0000,
    ;
}

/// The UID that the bytes of a Flickr-base58 decoding stand for.
pub fn charger_uid_from_base58_bytes(bytes: &[u8]) -> (uid: i32)
    ensures
        uid == uid_of_base58_bytes(bytes@),
        bytes@.len() <= 4 && be_value(bytes@) < 0x8000_0000 ==> uid == be_value(bytes@),
{
    proof {
        if bytes@.len() <= 4 && be_value(bytes@) < 0x8000_0000 {
            lemma_base58_bytes_read_big_endian(bytes@);
        }
    }
    let n = bytes.len();
    let b0: u32 = if n >= 1 { bytes[n - 1] as u32 } else { 0 };
    let b1: u32 = if n >= 2 { bytes[n - 2] as u32 } else { 0 };
    let b2: u32 = if n >= 3 { bytes[n - 3] as u32 } else { 0 };
    let b3: u32 = if n >= 4 { bytes[n - 4] as u32 } else { 0 };
    let value: u32 = b0 + b1 * 256 + b2 * 65536 + b3 * 16777216;
    value as i32
}

/// Decode a charger UID string. A string whose z-base-32 value lies above
/// the cutoff is read as z-base-32; anything else is read as Flickr-base58.
/// Returns `None` when neither reading applies or the Flickr-base58 value
/// does not fit in an `i32`.
pub fn decode_charger_uid(uid_str: &str) -> (r: Option<i32>)
    ensures
        r == charger_uid_decoded(uid_str@),
{
    if let Some(value) = zbase32_decode(uid_str) {
        if value > ZBASE32_UID_THRESHOLD {
            return Some(value as i32);
        }
    }
    match flickr_base58_decode(uid_str) {
        Some(bytes) => if base58_fits_i32(bytes.as_slice()) {
            Some(charger_uid_from_base58_bytes(bytes.as_slice()))
        } else {
            None
        },
        None => None,
    }
}

/// The big-endian bytes of `uid`.
fn i32_to_be_bytes(uid: i32) -> (b: Vec<u8>)
    ensures
        b@ == i32_be_bytes(uid),
{
    let u = uid as u32;
    let mut b: Vec<u8> = Vec::new();
    b.push((u / 16777216) as u8);
    b.push(((u / 65536) % 256) as u8);
    b.push(((u / 256) % 256) as u8);
    b.push((u % 256) as u8);
    assert(b@ =~= i32_be_bytes(uid));
    b
}

/// Law: reading back the big-endian bytes of a UID gives the UID.
pub proof fn lemma_uid_of_be_bytes(uid: i32)
    ensures
        uid_of_base58_bytes(i32_be_bytes(uid)) == uid,
{
    let u = uid as u32;
    let b = i32_be_bytes(uid);
    assert(byte_from_end(b, 0) == u % 256);
    assert(byte_from_end(b, 1) == (u / 256) % 256);
    assert(byte_from_end(b, 2) == (u / 65536) % 256);
    assert(byte_from_end(b, 3) == u / 16777216);
    assert(u % 256 + ((u / 256) % 256) * 256 + ((u / 65536) % 256) * 65536 + (u / 16777216) * 16777216 == u) by (bit_vector);
    assert((uid as u32) as i32 == uid) by (bit_vector);
}

/// Encode a charger UID the way the frontend does: z-base-32 above the
/// cutoff, Flickr-base58 of the big-endian bytes at or below it. Decoding
/// the result gives `uid` back whenever the z-base-32 reading of the result
/// does not lie above the cutoff, which always holds above the cutoff.
pub fn encode_charger_uid(uid: i32) -> (s: String)
    ensures
        s@ == charger_uid_encoded(uid),
        uid > ZBASE32_UID_THRESHOLD as i32 ==> charger_uid_decoded(s@) == Some(uid),
        uid <= ZBASE32_UID_THRESHOLD as i32 ==> flickr_base58_decoded(s@) == Some(i32_be_bytes(uid)),
        !(zbase32_decoded(s@) is Some && zbase32_decoded(s@)->0 > ZBASE32_UID_THRESHOLD)
            ==> charger_uid_decoded(s@) == Some(uid),
{
    if uid > ZBASE32_UID_THRESHOLD as i32 {
        let s = zbase32_encode(uid as u32);
        proof {
            lemma_zbase32_round_trip(uid as u32);
        }
        s
    } else {
        let bytes = i32_to_be_bytes(uid);
        let s = flickr_base58_encode(bytes.as_slice());
        proof {
            lemma_uid_of_be_bytes(uid);
        }
        s
    }
}

} // verus!
