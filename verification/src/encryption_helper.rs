//! Which kind of traffic encryption suits a game client, told from its
//! version.
use vstd::prelude::*;
use vstd::string::*;
use crate::text::{chars_of, find_char, find_char_in, parse_decimal, parse_unsigned, substring};

verus! {

/// The traffic is not encrypted.
pub const NO_ENCRYPTION: u8 = 0;

/// The traffic is encrypted by the client.
pub const ENCRYPTION: u8 = 1;

/// The number that a part of a version writes, 0 where it writes none that
/// fits 32 bits.
pub open spec fn part_number(part: Seq<char>) -> nat {
    match parse_unsigned(part, u32::MAX as nat) {
        Some(n) => n,
        None => 0,
    }
}

/// The first part of a version: what stands before the first dot.
pub open spec fn major_part(version: Seq<char>) -> Seq<char> {
    version.take(find_char(version, '.', 0))
}

/// The second part of a version: what stands between the first dot and the
/// second, or nothing where there is no dot.
pub open spec fn minor_part(version: Seq<char>) -> Seq<char> {
    let first = find_char(version, '.', 0);
    if first < version.len() {
        version.subrange(first + 1, find_char(version, '.', first + 1))
    } else {
        Seq::empty()
    }
}

/// Whether a client of version `major.minor` encrypts: from 1.26 on within
/// the first major version, and from the sixth major version on.
pub open spec fn needs_encryption(major: nat, minor: nat) -> bool {
    major >= 6 || (major == 1 && minor >= 26)
}

/// The kind of encryption that suits a client of the given version.
pub open spec fn suggested_encryption(version: Seq<char>) -> u8 {
    if needs_encryption(part_number(major_part(version)), part_number(minor_part(version))) {
        ENCRYPTION
    } else {
        NO_ENCRYPTION
    }
}

/// The number that `part` writes, 0 where it writes none that fits 32 bits.
fn parse_part(part: &str) -> (n: u64)
    ensures
        n == part_number(part@),
{
    match parse_decimal(part, 0xFFFF_FFFF) {
        Some(n) => n,
        None => 0,
    }
}

/// The kind of encryption that suits a client of version `version`: 1 for
/// encryption, 0 for none. A part of the version that is no number counts
/// as 0.
pub fn suggest_encryption_from_version(version: &str) -> (kind: u8)
    ensures
        kind == suggested_encryption(version@),
{
    let v = chars_of(version);
    let first = find_char_in(&v, '.', 0);
    let major_text = substring(version, 0, first);
    assert(major_text@ =~= major_part(version@));
    let major = parse_part(major_text.as_str());
    let minor = if first < v.len() {
        let second = find_char_in(&v, '.', first + 1);
        let minor_text = substring(version, first + 1, second);
        parse_part(minor_text.as_str())
    } else {
        proof {
            assert(minor_part(version@) =~= Seq::<char>::empty());
            assert(crate::text::without_plus(Seq::<char>::empty()) =~= Seq::<char>::empty());
        }
        0
    };
    if major >= 6 || (major == 1 && minor >= 26) {
        ENCRYPTION
    } else {
        NO_ENCRYPTION
    }
}

/// The short name of a kind of encryption.
pub open spec fn encryption_name_text(encryption: u8) -> Seq<char> {
    if encryption == 0 {
        "不加密"@
    } else if encryption == 1 {
        "加密"@
    } else {
        "未知"@
    }
}

/// The short name of a kind of encryption.
pub fn encryption_type_name(encryption: u8) -> (name: &'static str)
    ensures
        name@ == encryption_name_text(encryption),
{
    match encryption {
        0 => "不加密",
        1 => "加密",
        _ => "未知",
    }
}

/// The sentence that explains a kind of encryption.
pub open spec fn encryption_description_text(encryption: u8) -> Seq<char> {
    if encryption == 0 {
        "明文通信，适用于私服和旧版本客户端"@
    } else if encryption == 1 {
        "使用客户端内置加密，适用于官服和部分私服"@
    } else {
        "未知的加密类型"@
    }
}

/// The sentence that explains a kind of encryption.
pub fn encryption_type_description(encryption: u8) -> (text: &'static str)
    ensures
        text@ == encryption_description_text(encryption),
{
    match encryption {
        0 => "明文通信，适用于私服和旧版本客户端",
        1 => "使用客户端内置加密，适用于官服和部分私服",
        _ => "未知的加密类型",
    }
}

} // verus!
