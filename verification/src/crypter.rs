//! The obfuscation of stored passwords: each byte is combined with a byte of
//! a key by exclusive or, and the result is written in hexadecimal.
use vstd::prelude::*;
use vstd::string::*;
use vstd::utf8::{decode_utf8, encode_utf8, valid_utf8};
use crate::text::{is_prefix, starts_with};

verus! {

/// The key that is used where the machine's name cannot be had.
pub const DEFAULT_KEY: &'static str = "default";

/// What precedes the hexadecimal digits of an obfuscated text.
pub const PREFIX: &'static str = "1-";

/// The second mark by which an obfuscated text in the keyed format is known.
pub const PREFIX_PLUS: &'static str = "1+";

/// The text that `String::from_utf8_lossy` makes of `bytes`.
pub uninterp spec fn utf8_lossy(bytes: Seq<u8>) -> Seq<char>;

/// `String::from_utf8_lossy`: the text that the bytes encode in UTF-8, with
/// the replacement character in the place of every sequence that is not
/// well-formed. Bytes that are well-formed throughout are decoded as they
/// are.
#[verifier::external_body]
fn lossy_text(bytes: &Vec<u8>) -> (text: String)
    ensures
        text@ == utf8_lossy(bytes@),
        valid_utf8(bytes@) ==> text@ == decode_utf8(bytes@),
{
    String::from_utf8_lossy(bytes).into_owned()
}

/// `hostname::get`: the name of this machine, where the system gives one and
/// it is valid Unicode. Nothing is known of the name.
#[verifier::external_body]
fn machine_name() -> (name: Option<String>)
{
    match hostname::get() {
        Ok(name) => match name.into_string() {
            Ok(text) => Some(text),
            Err(_) => None,
        },
        Err(_) => None,
    }
}

/// The key that goes with a machine name: the name itself, or the default
/// key where there is none.
pub fn key_for(name: Option<String>) -> (key: String)
    ensures
        key@ == match name {
            Some(n) => n@,
            None => DEFAULT_KEY@,
        },
{
    match name {
        Some(n) => n,
        None => DEFAULT_KEY.to_string(),
    }
}

/// The key of this machine: its name, or the default key.
pub fn calculate_key() -> (key: String)
{
    key_for(machine_name())
}

/// The text that bytes are read as: what they encode in UTF-8 where they are
/// well-formed, and otherwise what `String::from_utf8_lossy` makes of them.
pub open spec fn text_of(bytes: Seq<u8>) -> Seq<char> {
    if valid_utf8(bytes) {
        decode_utf8(bytes)
    } else {
        utf8_lossy(bytes)
    }
}

/// The upper-case hexadecimal digit for `d`.
pub open spec fn hex_digit(d: int) -> char {
    if d < 10 {
        ((0x30 + d) as u8) as char
    } else {
        ((0x41 + d - 10) as u8) as char
    }
}

/// The two upper-case hexadecimal digits of each byte, in order.
pub open spec fn hex_text(bytes: Seq<u8>) -> Seq<char>
    decreases bytes.len(),
{
    if bytes.len() == 0 {
        Seq::empty()
    } else {
        hex_text(bytes.drop_last()).push(hex_digit(bytes.last() as int / 16)).push(
            hex_digit(bytes.last() as int % 16),
        )
    }
}

/// Each byte of `data` combined by exclusive or with the byte of `key` at the
/// same position, the key being repeated as often as needed.
pub open spec fn xor_with_key(data: Seq<u8>, key: Seq<u8>) -> Seq<u8> {
    Seq::new(data.len(), |i: int| data[i] ^ key[i % key.len() as int])
}

/// The obfuscated form of `source` under `key`: nothing where either is
/// empty, otherwise the mark `1-` and the hexadecimal digits of the bytes of
/// `source` combined with those of `key`.
pub open spec fn encrypted(source: Seq<char>, key: Seq<char>) -> Seq<char> {
    if source.len() == 0 || key.len() == 0 {
        Seq::empty()
    } else {
        PREFIX@ + hex_text(xor_with_key(encode_utf8(source), encode_utf8(key)))
    }
}

/// The value of the byte `b` read as a hexadecimal digit of either case.
pub open spec fn hex_value(b: u8) -> Option<u8> {
    if 0x30 <= b <= 0x39 {
        Some((b - 0x30) as u8)
    } else if 0x41 <= b <= 0x46 {
        Some((b - 0x41 + 10) as u8)
    } else if 0x61 <= b <= 0x66 {
        Some((b - 0x61 + 10) as u8)
    } else {
        None
    }
}

/// The byte that two characters write in hexadecimal: two digits, or a plus
/// sign and one digit.
pub open spec fn pair_value(first: u8, second: u8) -> Option<u8> {
    match hex_value(second) {
        Some(low) => if first == 0x2B {
            Some(low)
        } else {
            match hex_value(first) {
                Some(high) => Some((high * 16 + low) as u8),
                None => None,
            }
        },
        None => None,
    }
}

/// The bytes that the first `pairs` pairs of `hex` give in the keyed format.
/// A pair that writes no byte is passed over; each byte that is written is
/// combined with the next byte of the key, which is repeated as needed.
pub open spec fn decode_keyed(hex: Seq<u8>, key: Seq<u8>, pairs: nat) -> Seq<u8>
    decreases pairs,
{
    if pairs == 0 {
        Seq::empty()
    } else {
        let at = 2 * (pairs - 1);
        let before = decode_keyed(hex, key, (pairs - 1) as nat);
        match pair_value(hex[at], hex[at + 1]) {
            Some(b) => before.push(b ^ key[before.len() as int % key.len() as int]),
            None => before,
        }
    }
}

/// The byte that a pair is combined with in the format without a key: half
/// the length of the text plus the pair's index, both taken modulo 256.
pub open spec fn positional_key(len: nat, pair: nat) -> u8 {
    ((len / 2 + pair) % 256) as u8
}

/// The bytes that the first `pairs` pairs of `src` give in the format without
/// a key. A pair that writes no byte is passed over.
pub open spec fn decode_positional(src: Seq<u8>, pairs: nat) -> Seq<u8>
    decreases pairs,
{
    if pairs == 0 {
        Seq::empty()
    } else {
        let at = 2 * (pairs - 1);
        let before = decode_positional(src, (pairs - 1) as nat);
        match pair_value(src[at], src[at + 1]) {
            Some(b) => before.push(b ^ positional_key(src.len(), (pairs - 1) as nat)),
            None => before,
        }
    }
}

/// Whether `source` is in the keyed format: it starts with `1-` and is longer
/// than that, or it starts with `1+`.
pub open spec fn is_keyed(source: Seq<char>) -> bool {
    (encode_utf8(source).len() > 2 && is_prefix(PREFIX@, source)) || is_prefix(
        PREFIX_PLUS@,
        source,
    )
}

/// The text that `source` hides under `key`.
///
/// In the keyed format the digits follow the two characters of the mark, and
/// an empty key gives nothing. Any other text is read in the format without a
/// key. Digits are read in pairs, and one left over at the end is ignored. The
/// bytes found are read as UTF-8, with the replacement character where they
/// are not well-formed.
pub open spec fn decrypted(source: Seq<char>, key: Seq<char>) -> Seq<char> {
    let src = encode_utf8(source);
    if source.len() == 0 {
        Seq::empty()
    } else if is_keyed(source) {
        if key.len() == 0 {
            Seq::empty()
        } else if src.len() >= 2 {
            let hex = src.skip(2);
            text_of(decode_keyed(hex, encode_utf8(key), hex.len() / 2))
        } else {
            text_of(Seq::empty())
        }
    } else {
        text_of(decode_positional(src, src.len() / 2))
    }
}

/// The one-character string that writes the hexadecimal digit `d`.
fn hex_digit_str(d: u8) -> (r: &'static str)
    requires
        d < 16,
    ensures
        r@ == seq![hex_digit(d as int)],
{
    let digits = "0123456789ABCDEF";
    proof {
        reveal_strlit("0123456789ABCDEF");
    }
    let r = digits.substring_char(d as usize, d as usize + 1);
    assert(r@ =~= seq![hex_digit(d as int)]);
    r
}

/// The value of the byte `b` read as a hexadecimal digit.
fn hex_digit_value(b: u8) -> (v: Option<u8>)
    ensures
        v == hex_value(b),
{
    if 0x30 <= b && b <= 0x39 {
        Some(b - 0x30)
    } else if 0x41 <= b && b <= 0x46 {
        Some(b - 0x41 + 10)
    } else if 0x61 <= b && b <= 0x66 {
        Some(b - 0x61 + 10)
    } else {
        None
    }
}

/// The byte that the two characters write in hexadecimal, if they write one.
fn hex_pair(first: u8, second: u8) -> (v: Option<u8>)
    ensures
        v == pair_value(first, second),
{
    match hex_digit_value(second) {
        Some(low) => {
            if first == 0x2B {
                Some(low)
            } else {
                match hex_digit_value(first) {
                    Some(high) => Some(high * 16 + low),
                    None => None,
                }
            }
        },
        None => None,
    }
}

/// Obfuscates `source` under `key`.
pub fn encrypt_with_key(source: &str, key: &str) -> (r: String)
    ensures
        r@ == encrypted(source@, key@),
{
    if source.is_empty() || key.is_empty() {
        return String::new();
    }
    let buff = source.as_bytes();
    let key_bytes = key.as_bytes();
    assert(key_bytes@.len() > 0) by {
        vstd::utf8::encode_utf8_decode_utf8(key@);
        if key_bytes@.len() == 0 {
            assert(key_bytes@ =~= Seq::<u8>::empty());
            assert(decode_utf8(Seq::<u8>::empty()) =~= Seq::<char>::empty());
        }
    }
    let mut result = PREFIX.to_string();
    let ghost mixed = xor_with_key(buff@, key_bytes@);
    let mut kidx: usize = 0;
    let mut i: usize = 0;
    assert(mixed.take(0) =~= Seq::<u8>::empty());
    while i < buff.len()
        invariant
            i <= buff.len(),
            key_bytes@.len() > 0,
            kidx < key_bytes.len(),
            kidx as int == (i as int) % (key_bytes@.len() as int),
            mixed == xor_with_key(buff@, key_bytes@),
            result@ == PREFIX@ + hex_text(mixed.take(i as int)),
        decreases buff.len() - i,
    {
        let byte = buff[i] ^ key_bytes[kidx];
        proof {
            let next = mixed.take(i + 1);
            assert(next.drop_last() =~= mixed.take(i as int));
            assert(next.last() == byte);
        }
        result.append(hex_digit_str(byte / 16));
        result.append(hex_digit_str(byte % 16));
        proof {
            let next = mixed.take(i + 1);
            assert(result@ =~= PREFIX@ + hex_text(next));
            lemma_next_index(i as int, key_bytes@.len() as int);
        }
        kidx += 1;
        if kidx >= key_bytes.len() {
            kidx = 0;
        }
        i += 1;
    }
    assert(mixed.take(i as int) =~= mixed);
    result
}

/// Counting up modulo `n` steps from `i % n` to `(i + 1) % n`.
proof fn lemma_next_index(i: int, n: int)
    by (nonlinear_arith)
    requires
        0 <= i,
        0 < n,
    ensures
        (i + 1) % n == if i % n + 1 >= n {
            0
        } else {
            i % n + 1
        },
{
}

/// Reads back the text that `source` hides under `key`.
pub fn decrypt_with_key(source: &str, key: &str) -> (r: String)
    ensures
        r@ == decrypted(source@, key@),
{
    if source.is_empty() {
        return String::new();
    }
    let src = source.as_bytes();
    let keyed = (src.len() > 2 && starts_with(source, PREFIX)) || starts_with(source, PREFIX_PLUS);
    let mut result: Vec<u8> = Vec::new();
    if keyed {
        if key.is_empty() {
            return String::new();
        }
        let key_bytes = key.as_bytes();
        assert(key_bytes@.len() > 0) by {
            vstd::utf8::encode_utf8_decode_utf8(key@);
            if key_bytes@.len() == 0 {
                assert(key_bytes@ =~= Seq::<u8>::empty());
                assert(decode_utf8(Seq::<u8>::empty()) =~= Seq::<char>::empty());
            }
        }
        if src.len() >= 2 {
            let ghost hex = src@.skip(2);
            let pairs: usize = (src.len() - 2) / 2;
            let mut kidx: usize = 0;
            let mut p: usize = 0;
            while p < pairs
                invariant
                    p <= pairs,
                    2 <= src@.len() <= usize::MAX,
                    pairs == (src@.len() - 2) / 2,
                    hex == src@.skip(2),
                    key_bytes@.len() > 0,
                    kidx < key_bytes.len(),
                    kidx as int == (result@.len() as int) % (key_bytes@.len() as int),
                    result@ == decode_keyed(hex, key_bytes@, p as nat),
                decreases pairs - p,
            {
                let at: usize = 2 + 2 * p;
                assert(hex[2 * p] == src@[at as int]);
                assert(hex[2 * p + 1] == src@[at + 1]);
                match hex_pair(src[at], src[at + 1]) {
                    Some(b) => {
                        proof {
                            lemma_next_index(result@.len() as int, key_bytes@.len() as int);
                        }
                        result.push(b ^ key_bytes[kidx]);
                        kidx += 1;
                        if kidx >= key_bytes.len() {
                            kidx = 0;
                        }
                    },
                    None => {},
                }
                p += 1;
            }
        }
    } else {
        let pairs: usize = src.len() / 2;
        let mut p: usize = 0;
        while p < pairs
            invariant
                p <= pairs,
                src@.len() <= usize::MAX,
                pairs == src@.len() / 2,
                result@ == decode_positional(src@, p as nat),
            decreases pairs - p,
        {
            let at: usize = 2 * p;
            match hex_pair(src[at], src[at + 1]) {
                Some(b) => {
                    let k: u8 = ((src.len() / 2 + p) % 256) as u8;
                    result.push(b ^ k);
                },
                None => {},
            }
            p += 1;
        }
    }
    lossy_text(&result)
}

/// Obfuscates `source` under the key of this machine. An empty text stays
/// empty; any other is obfuscated under some key, which is the same for
/// every call on one machine.
pub fn encrypt(source: &str) -> (r: String)
    ensures
        exists|key: Seq<char>| r@ == encrypted(source@, key),
        source@.len() == 0 ==> r@.len() == 0,
{
    if source.is_empty() {
        assert(Seq::<char>::empty() == encrypted(source@, DEFAULT_KEY@));
        return String::new();
    }
    let key = calculate_key();
    encrypt_with_key(source, key.as_str())
}

/// Reads back the text that `source` hides under the key of this machine.
pub fn decrypt(source: &str) -> (r: String)
    ensures
        exists|key: Seq<char>| r@ == decrypted(source@, key),
        source@.len() == 0 ==> r@.len() == 0,
{
    if source.is_empty() {
        assert(Seq::<char>::empty() == decrypted(source@, DEFAULT_KEY@));
        return String::new();
    }
    let key = calculate_key();
    decrypt_with_key(source, key.as_str())
}

/// The digits of `hex_text`, by position: two for each byte, the more
/// significant half first.
pub proof fn lemma_hex_text(bytes: Seq<u8>)
    ensures
        hex_text(bytes).len() == 2 * bytes.len(),
        forall|i: int|
            0 <= i < bytes.len() ==> hex_text(bytes)[2 * i] == hex_digit(bytes[i] as int / 16)
                && hex_text(bytes)[2 * i + 1] == hex_digit(bytes[i] as int % 16),
    decreases bytes.len(),
{
    if bytes.len() > 0 {
        lemma_hex_text(bytes.drop_last());
        assert forall|i: int| 0 <= i < bytes.len() implies hex_text(bytes)[2 * i] == hex_digit(
            bytes[i] as int / 16,
        ) && hex_text(bytes)[2 * i + 1] == hex_digit(bytes[i] as int % 16) by {
            if i < bytes.len() - 1 {
                assert(bytes.drop_last()[i] == bytes[i]);
            }
        }
    }
}

/// A hexadecimal digit is read back as the number that it was written for.
pub proof fn lemma_hex_digit(d: int)
    requires
        0 <= d < 16,
    ensures
        hex_digit(d) as u32 <= 0x7f,
        hex_digit(d) as u8 != 0x2B,
        hex_value(hex_digit(d) as u8) == Some(d as u8),
{
}

/// Combining a byte with a key byte twice gives the byte back.
proof fn lemma_xor_twice(a: u8, k: u8)
    by (bit_vector)
    ensures
        (a ^ k) ^ k == a,
{
}

/// What was obfuscated under a key is read back under the same key: for
/// every text and every key that are not empty, `decrypted` undoes
/// `encrypted`.
pub proof fn lemma_decrypt_undoes_encrypt(source: Seq<char>, key: Seq<char>)
    requires
        source.len() > 0,
        key.len() > 0,
    ensures
        decrypted(encrypted(source, key), key) == source,
{
    reveal_strlit("1-");
    reveal_strlit("1+");
    let sb = encode_utf8(source);
    let kb = encode_utf8(key);
    vstd::utf8::encode_utf8_decode_utf8(source);
    vstd::utf8::encode_utf8_decode_utf8(key);
    vstd::utf8::encode_utf8_valid_utf8(source);
    assert(decode_utf8(Seq::<u8>::empty()) =~= Seq::<char>::empty());
    assert(sb.len() > 0) by {
        if sb.len() == 0 {
            assert(sb =~= Seq::<u8>::empty());
        }
    }
    assert(kb.len() > 0) by {
        if kb.len() == 0 {
            assert(kb =~= Seq::<u8>::empty());
        }
    }
    let mixed = xor_with_key(sb, kb);
    let digits = hex_text(mixed);
    let hidden = encrypted(source, key);
    assert(hidden == PREFIX@ + digits);
    lemma_hex_text(mixed);
    assert forall|i: int| 0 <= i < hidden.len() implies '\0' <= #[trigger] hidden[i]
        <= '\u{7f}' by {
        if i >= 2 {
            let j = (i - 2) / 2;
            lemma_hex_digit(mixed[j] as int / 16);
            lemma_hex_digit(mixed[j] as int % 16);
            if (i - 2) % 2 == 0 {
                assert(hidden[i] == digits[2 * j]);
            } else {
                assert(hidden[i] == digits[2 * j + 1]);
            }
        }
    }
    assert(vstd::utf8::is_ascii_chars(hidden));
    vstd::utf8::is_ascii_chars_encode_utf8(hidden);
    let src = encode_utf8(hidden);
    assert(src.len() == 2 + 2 * mixed.len());
    assert(hidden.subrange(0, 2) =~= PREFIX@);
    assert(is_keyed(hidden));
    let hex = src.skip(2);
    assert(hex.len() / 2 == mixed.len());
    assert forall|p: int| 0 <= p < mixed.len() implies pair_value(
        #[trigger] hex[2 * p],
        hex[2 * p + 1],
    ) == Some(mixed[p]) by {
        let hi = mixed[p] as int / 16;
        let lo = mixed[p] as int % 16;
        lemma_hex_digit(hi);
        lemma_hex_digit(lo);
        assert(hex[2 * p] == src[2 * p + 2]);
        assert(hex[2 * p + 1] == src[2 * p + 3]);
        assert(hidden[2 * p + 2] == digits[2 * p]);
        assert(hidden[2 * p + 3] == digits[2 * p + 1]);
        assert(src[2 * p + 2] == hidden[2 * p + 2] as u8);
        assert(src[2 * p + 3] == hidden[2 * p + 3] as u8);
    }
    lemma_decode_keyed(hex, sb, kb, mixed.len());
    assert(sb.take(sb.len() as int) =~= sb);
}

/// Where every pair of `hex` writes the byte of `data` at its position
/// combined with the key, the pairs read back `data`.
proof fn lemma_decode_keyed(hex: Seq<u8>, data: Seq<u8>, key: Seq<u8>, pairs: nat)
    requires
        key.len() > 0,
        pairs <= data.len(),
        forall|p: int|
            0 <= p < data.len() ==> pair_value(#[trigger] hex[2 * p], hex[2 * p + 1]) == Some(
                xor_with_key(data, key)[p],
            ),
    ensures
        decode_keyed(hex, key, pairs) == data.take(pairs as int),
    decreases pairs,
{
    if pairs == 0 {
        assert(data.take(0) =~= Seq::<u8>::empty());
    } else {
        let p = (pairs - 1) as int;
        lemma_decode_keyed(hex, data, key, p as nat);
        let before = data.take(p);
        let k = key[p % key.len() as int];
        assert(pair_value(hex[2 * p], hex[2 * p + 1]) == Some(xor_with_key(data, key)[p]));
        lemma_xor_twice(data[p], k);
        assert(data.take(pairs as int) =~= before.push(data[p]));
    }
}

} // verus!
