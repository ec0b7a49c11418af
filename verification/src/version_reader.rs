//! Reading the version of a Windows executable from its bytes: the headers
//! lead to the section that holds the resources, where the fixed part of the
//! version information is found by its signature.
use vstd::prelude::*;
use vstd::string::*;
use crate::text::{decimal_digits, format_decimal, opt_string_view};

verus! {

/// The length of the header that every executable starts with.
pub const DOS_HEADER_LEN: u64 = 64;

/// Where that header holds the offset of the portable-executable header.
pub const PE_OFFSET_AT: u64 = 0x3C;

/// The length of the signature and of the file header that follows it.
pub const COFF_END: u64 = 24;

/// The least size of an optional header.
pub const MIN_OPTIONAL_HEADER: u64 = 96;

/// The magic number of the optional header of a 64-bit executable.
pub const PE32_PLUS_MAGIC: u64 = 0x20b;

/// The length of one entry of the section table.
pub const SECTION_HEADER_LEN: u64 = 40;

/// The greatest number of bytes of the resources that are searched.
pub const RESOURCE_WINDOW: u64 = 4096;

/// The length of the fixed part of the version information.
pub const FIXED_INFO_LEN: u64 = 52;

/// The signature of the fixed part of the version information.
pub const FIXED_INFO_SIGNATURE: u64 = 0xFEEF04BD;

/// The 16-bit number that `d` holds at `at`, least significant byte first.
pub open spec fn u16_at(d: Seq<u8>, at: int) -> int {
    d[at] as int + 256 * (d[at + 1] as int)
}

/// The 32-bit number that `d` holds at `at`, least significant byte first.
pub open spec fn u32_at(d: Seq<u8>, at: int) -> int {
    d[at] as int + 256 * (d[at + 1] as int) + 65536 * (d[at + 2] as int) + 16777216 * (d[at
        + 3] as int)
}

/// What the headers of an executable tell.
pub struct PeHeader {
    /// Where the section table starts.
    pub section_table: int,
    /// The number of sections.
    pub sections: int,
    /// The address, in the loaded image, of the resources.
    pub resource_rva: int,
}

/// Where the optional header holds the entry of the resources in its table
/// of directories; it depends on the header's magic number.
pub open spec fn resource_entry_at(magic: int) -> int {
    if magic == PE32_PLUS_MAGIC {
        128
    } else {
        112
    }
}

/// What the headers of `d` tell, if `d` starts as an executable does: with
/// the letters `MZ`, a header that points to the signature `PE\0\0`, a file
/// header, and an optional header that is large enough to hold the entry of
/// the resources, which is not empty.
pub open spec fn parse_header(d: Seq<u8>) -> Option<PeHeader> {
    if d.len() < DOS_HEADER_LEN || d[0] != 0x4D || d[1] != 0x5A {
        None
    } else {
        let pe = u32_at(d, PE_OFFSET_AT as int);
        if pe + COFF_END > d.len() || d[pe] != 0x50 || d[pe + 1] != 0x45 || d[pe + 2] != 0
            || d[pe + 3] != 0 {
            None
        } else {
            let optional_size = u16_at(d, pe + 20);
            let optional = pe + COFF_END;
            if optional_size < MIN_OPTIONAL_HEADER || optional + optional_size > d.len() {
                None
            } else {
                let entry = resource_entry_at(u16_at(d, optional));
                if optional_size < entry + 8 || u32_at(d, optional + entry) == 0 {
                    None
                } else {
                    Some(
                        PeHeader {
                            section_table: optional + optional_size,
                            sections: u16_at(d, pe + 6),
                            resource_rva: u32_at(d, optional + entry),
                        },
                    )
                }
            }
        }
    }
}

/// The place in the file of what the image holds at `rva`: the first of the
/// sections from index `i` on whose range of addresses holds `rva` tells it.
/// There is none where no section does, or where the section table is cut
/// short before one is found.
pub open spec fn file_offset_of(d: Seq<u8>, h: PeHeader, i: int) -> Option<int>
    decreases h.sections - i,
{
    let at = h.section_table + SECTION_HEADER_LEN * i;
    if i < 0 || i >= h.sections || at + SECTION_HEADER_LEN > d.len() {
        None
    } else {
        let size = u32_at(d, at + 8);
        let address = u32_at(d, at + 12);
        let raw = u32_at(d, at + 20);
        if address <= h.resource_rva < address + size {
            if raw == 0 {
                None
            } else {
                Some(raw + (h.resource_rva - address))
            }
        } else {
            file_offset_of(d, h, i + 1)
        }
    }
}

/// The part of the resources that is searched: what the file holds from
/// `offset` on, up to the length of the window.
pub open spec fn resource_window(d: Seq<u8>, offset: int) -> Seq<u8> {
    let len = if d.len() - offset < RESOURCE_WINDOW {
        d.len() - offset
    } else {
        RESOURCE_WINDOW as int
    };
    d.subrange(offset, offset + len)
}

/// The first position at or after `from` at which `w` holds the signature
/// of the fixed version information with room for all of it, or the end of
/// the search where there is none.
pub open spec fn find_fixed_info(w: Seq<u8>, from: int) -> int
    decreases w.len() - from,
{
    if 0 <= from && from + FIXED_INFO_LEN < w.len() && u32_at(w, from) != FIXED_INFO_SIGNATURE {
        find_fixed_info(w, from + 1)
    } else {
        from
    }
}

/// The four numbers of a version.
pub struct FileVersion {
    pub major: int,
    pub minor: int,
    pub build: int,
    pub revision: int,
}

/// The version that the fixed version information at `at` holds: two 32-bit
/// numbers, each of which holds two of the version's numbers.
pub open spec fn version_at(w: Seq<u8>, at: int) -> FileVersion {
    let most = u32_at(w, at + 8);
    let least = u32_at(w, at + 12);
    FileVersion {
        major: most / 65536,
        minor: most % 65536,
        build: least / 65536,
        revision: least % 65536,
    }
}

/// The version of the executable `d`, if it can be found.
pub open spec fn pe_version(d: Seq<u8>) -> Option<FileVersion> {
    match parse_header(d) {
        Some(h) => match file_offset_of(d, h, 0) {
            Some(offset) => if offset > d.len() {
                None
            } else {
                let w = resource_window(d, offset);
                let at = find_fixed_info(w, 0);
                if at + FIXED_INFO_LEN < w.len() {
                    Some(version_at(w, at))
                } else {
                    None
                }
            },
            None => None,
        },
        None => None,
    }
}

/// How a version is written: its numbers with dots between them, the last
/// one being left out where it is 0.
pub open spec fn version_text(v: FileVersion) -> Seq<char> {
    let three = decimal_digits(v.major as nat) + "."@ + decimal_digits(v.minor as nat) + "."@
        + decimal_digits(v.build as nat);
    if v.revision == 0 {
        three
    } else {
        three + "."@ + decimal_digits(v.revision as nat)
    }
}

/// The written form of the version of the executable `d`, if it has one.
pub open spec fn pe_version_text(d: Seq<u8>) -> Option<Seq<char>> {
    match pe_version(d) {
        Some(v) => Some(version_text(v)),
        None => None,
    }
}

/// The 16-bit number that `d` holds at `at`.
fn read_u16(d: &[u8], at: u64) -> (v: u64)
    requires
        at + 2 <= d@.len(),
    ensures
        v == u16_at(d@, at as int),
        v < 65536,
{
    let at = at as usize;
    d[at] as u64 + 256 * (d[at + 1] as u64)
}

/// The 32-bit number that `d` holds at `at`.
fn read_u32(d: &[u8], at: u64) -> (v: u64)
    requires
        at + 4 <= d@.len(),
    ensures
        v == u32_at(d@, at as int),
        v < 0x1_0000_0000,
{
    let at = at as usize;
    d[at] as u64 + 256 * (d[at + 1] as u64) + 65536 * (d[at + 2] as u64) + 16777216 * (d[at
        + 3] as u64)
}

/// What the headers of `d` tell: where the section table starts, the number
/// of sections, and the address of the resources.
fn read_header(d: &[u8]) -> (r: Option<(u64, u64, u64)>)
    ensures
        match parse_header(d@) {
            Some(h) => r == Some((h.section_table as u64, h.sections as u64, h.resource_rva as u64))
                && h.section_table <= d@.len() && h.section_table < 0x2_0000_0000
                && 0 <= h.sections < 65536 && 0 < h.resource_rva < 0x1_0000_0000,
            None => r is None,
        },
{
    let len = d.len() as u64;
    if len < DOS_HEADER_LEN || d[0] != 0x4D || d[1] != 0x5A {
        return None;
    }
    let pe = read_u32(d, PE_OFFSET_AT);
    if pe + COFF_END > len {
        return None;
    }
    let p = pe as usize;
    if d[p] != 0x50 || d[p + 1] != 0x45 || d[p + 2] != 0 || d[p + 3] != 0 {
        return None;
    }
    let optional_size = read_u16(d, pe + 20);
    let optional = pe + COFF_END;
    if optional_size < MIN_OPTIONAL_HEADER || optional + optional_size > len {
        return None;
    }
    let magic = read_u16(d, optional);
    let entry: u64 = if magic == PE32_PLUS_MAGIC {
        128
    } else {
        112
    };
    if optional_size < entry + 8 {
        return None;
    }
    let rva = read_u32(d, optional + entry);
    if rva == 0 {
        return None;
    }
    let sections = read_u16(d, pe + 6);
    Some((optional + optional_size, sections, rva))
}

/// The place in the file of the resources, as the section table tells it.
fn locate_resources(d: &[u8], table: u64, sections: u64, rva: u64) -> (r: Option<u64>)
    requires
        table <= d@.len(),
        table < 0x2_0000_0000,
        sections < 65536,
        rva < 0x1_0000_0000,
    ensures
        r is Some == file_offset_of(
            d@,
            PeHeader { section_table: table as int, sections: sections as int, resource_rva: rva as int },
            0,
        ) is Some,
        r matches Some(offset) ==> file_offset_of(
            d@,
            PeHeader { section_table: table as int, sections: sections as int, resource_rva: rva as int },
            0,
        ) == Some(offset as int),
{
    let ghost h = PeHeader {
        section_table: table as int,
        sections: sections as int,
        resource_rva: rva as int,
    };
    let len = d.len() as u64;
    let mut i: u64 = 0;
    while i < sections
        invariant
            i <= sections,
            sections < 65536,
            table < 0x2_0000_0000,
            rva < 0x1_0000_0000,
            len == d@.len(),
            h == (PeHeader {
                section_table: table as int,
                sections: sections as int,
                resource_rva: rva as int,
            }),
            file_offset_of(d@, h, 0) == file_offset_of(d@, h, i as int),
        decreases sections - i,
    {
        let at = table + SECTION_HEADER_LEN * i;
        if at + SECTION_HEADER_LEN > len {
            return None;
        }
        let size = read_u32(d, at + 8);
        let address = read_u32(d, at + 12);
        let raw = read_u32(d, at + 20);
        if address <= rva && rva < address + size {
            if raw == 0 {
                return None;
            }
            return Some(raw + (rva - address));
        }
        i += 1;
    }
    None
}

/// The first position at which `d` holds, within the window that starts at
/// `offset`, the signature of the fixed version information with room for
/// all of it.
fn search_fixed_info(d: &[u8], offset: u64) -> (r: Option<u64>)
    requires
        offset <= d@.len(),
    ensures
        ({
            let w = resource_window(d@, offset as int);
            let at = find_fixed_info(w, 0);
            if at + FIXED_INFO_LEN < w.len() {
                r == Some((offset + at) as u64) && 0 <= at
            } else {
                r is None
            }
        }),
{
    let len = d.len() as u64;
    let window: u64 = if len - offset < RESOURCE_WINDOW {
        len - offset
    } else {
        RESOURCE_WINDOW
    };
    let ghost w = resource_window(d@, offset as int);
    let mut i: u64 = 0;
    while i + FIXED_INFO_LEN < window
        invariant
            offset <= len,
            len == d@.len(),
            i <= window,
            window <= RESOURCE_WINDOW,
            window <= len - offset,
            w == resource_window(d@, offset as int),
            w.len() == window,
            find_fixed_info(w, 0) == find_fixed_info(w, i as int),
        decreases window - i,
    {
        assert(u32_at(w, i as int) == u32_at(d@, offset + i));
        if read_u32(d, offset + i) == FIXED_INFO_SIGNATURE {
            return Some(offset + i);
        }
        i += 1;
    }
    None
}

/// Writes a version.
fn format_version(major: u64, minor: u64, build: u64, revision: u64) -> (text: String)
    ensures
        text@ == version_text(
            FileVersion {
                major: major as int,
                minor: minor as int,
                build: build as int,
                revision: revision as int,
            },
        ),
{
    let mut text = format_decimal(major);
    text.append(".");
    text.append(format_decimal(minor).as_str());
    text.append(".");
    text.append(format_decimal(build).as_str());
    if revision != 0 {
        text.append(".");
        text.append(format_decimal(revision).as_str());
    }
    text
}

/// The version of the Windows executable whose bytes are `data`, written
/// with dots, or nothing where `data` is no such executable or holds no
/// version information where it is looked for.
pub fn read_pe_version(data: &[u8]) -> (version: Option<String>)
    ensures
        opt_string_view(version) == pe_version_text(data@),
{
    let (table, sections, rva) = match read_header(data) {
        Some(h) => h,
        None => {
            return None;
        },
    };
    let offset = match locate_resources(data, table, sections, rva) {
        Some(offset) => offset,
        None => {
            return None;
        },
    };
    if offset > data.len() as u64 {
        return None;
    }
    let at = match search_fixed_info(data, offset) {
        Some(at) => at,
        None => {
            return None;
        },
    };
    let ghost w = resource_window(data@, offset as int);
    assert(u32_at(w, at - offset + 8) == u32_at(data@, at + 8));
    assert(u32_at(w, at - offset + 12) == u32_at(data@, at + 12));
    let most = read_u32(data, at + 8);
    let least = read_u32(data, at + 12);
    Some(format_version(most / 65536, most % 65536, least / 65536, least % 65536))
}

} // verus!
