use openuo_launcher::version_reader::read_pe_version;

fn put_u16(data: &mut [u8], at: usize, value: u16) {
    data[at..at + 2].copy_from_slice(&value.to_le_bytes());
}

fn put_u32(data: &mut [u8], at: usize, value: u32) {
    data[at..at + 4].copy_from_slice(&value.to_le_bytes());
}

/// An executable with one section that holds the resources, and in them the
/// fixed version information at `gap` bytes from their start.
fn executable(wide: bool, version: [u16; 4], gap: usize, tail: usize) -> Vec<u8> {
    let pe = 64usize;
    let optional_size: usize = if wide { 240 } else { 224 };
    let optional = pe + 24;
    let table = optional + optional_size;
    let resources = table + 40 + 8;
    let mut data = vec![0u8; resources + gap + 52 + tail];
    data[0] = b'M';
    data[1] = b'Z';
    put_u32(&mut data, 0x3C, pe as u32);
    data[pe..pe + 4].copy_from_slice(b"PE\0\0");
    put_u16(&mut data, pe + 6, 1);
    put_u16(&mut data, pe + 20, optional_size as u16);
    put_u16(&mut data, optional, if wide { 0x20b } else { 0x10b });
    let entry = if wide { 128 } else { 112 };
    put_u32(&mut data, optional + entry, 0x2010);
    put_u32(&mut data, table + 8, 0x1000);
    put_u32(&mut data, table + 12, 0x2000);
    put_u32(&mut data, table + 20, (resources - 0x10) as u32);
    let info = resources + gap;
    put_u32(&mut data, info, 0xFEEF04BD);
    put_u32(&mut data, info + 8, ((version[0] as u32) << 16) | version[1] as u32);
    put_u32(&mut data, info + 12, ((version[2] as u32) << 16) | version[3] as u32);
    data
}

#[test]
fn version_of_a_32_bit_executable() {
    let data = executable(false, [7, 0, 102, 0], 10, 1);
    assert_eq!(read_pe_version(&data), Some("7.0.102".to_string()));
}

#[test]
fn version_of_a_64_bit_executable() {
    let data = executable(true, [7, 0, 15, 1], 0, 1);
    assert_eq!(read_pe_version(&data), Some("7.0.15.1".to_string()));
}

#[test]
fn revision_is_written_unless_it_is_zero() {
    assert_eq!(
        read_pe_version(&executable(false, [1, 2, 3, 4], 3, 9)),
        Some("1.2.3.4".to_string())
    );
    assert_eq!(read_pe_version(&executable(false, [1, 2, 3, 0], 3, 9)), Some("1.2.3".to_string()));
    assert_eq!(read_pe_version(&executable(false, [0, 0, 0, 0], 3, 9)), Some("0.0.0".to_string()));
    assert_eq!(
        read_pe_version(&executable(false, [65535, 65535, 65535, 65535], 3, 9)),
        Some("65535.65535.65535.65535".to_string())
    );
}

#[test]
fn version_information_needs_room_after_it() {
    assert_eq!(read_pe_version(&executable(false, [1, 2, 3, 4], 5, 0)), None);
    assert_eq!(read_pe_version(&executable(false, [1, 2, 3, 4], 5, 1)), Some("1.2.3.4".to_string()));
}

#[test]
fn version_information_is_looked_for_in_a_window() {
    assert_eq!(
        read_pe_version(&executable(false, [1, 2, 3, 4], 4096 - 53, 600)),
        Some("1.2.3.4".to_string())
    );
    assert_eq!(read_pe_version(&executable(false, [1, 2, 3, 4], 4096 - 52, 600)), None);
    assert_eq!(read_pe_version(&executable(false, [1, 2, 3, 4], 5000, 600)), None);
}

#[test]
fn first_version_information_counts() {
    let mut data = executable(false, [1, 2, 3, 4], 100, 10);
    let table = 64 + 24 + 224;
    let resources = table + 48;
    put_u32(&mut data, resources + 20, 0xFEEF04BD);
    put_u32(&mut data, resources + 28, (9 << 16) | 8);
    put_u32(&mut data, resources + 32, (7 << 16) | 6);
    assert_eq!(read_pe_version(&data), Some("9.8.7.6".to_string()));
}

#[test]
fn what_is_no_executable_has_no_version() {
    assert_eq!(read_pe_version(&[]), None);
    assert_eq!(read_pe_version(b"MZ"), None);
    assert_eq!(read_pe_version(&[0u8; 4096]), None);
    let good = executable(false, [1, 2, 3, 4], 10, 1);

    let mut data = good.clone();
    data[0] = b'Z';
    assert_eq!(read_pe_version(&data), None);

    let mut data = good.clone();
    data[64] = b'X';
    assert_eq!(read_pe_version(&data), None);

    let mut data = good.clone();
    put_u32(&mut data, 0x3C, 0xFFFF_FFF0);
    assert_eq!(read_pe_version(&data), None);

    let mut data = good.clone();
    put_u16(&mut data, 64 + 20, 95);
    assert_eq!(read_pe_version(&data), None);

    let mut data = good.clone();
    put_u16(&mut data, 64 + 20, 0xFFFF);
    assert_eq!(read_pe_version(&data), None);

    assert_eq!(read_pe_version(&good[..63]), None);
    assert_eq!(read_pe_version(&good[..100]), None);
    assert_eq!(read_pe_version(&good[..330]), None);
}

#[test]
fn executable_without_resources_has_no_version() {
    let good = executable(false, [1, 2, 3, 4], 10, 1);

    let mut data = good.clone();
    put_u32(&mut data, 64 + 24 + 112, 0);
    assert_eq!(read_pe_version(&data), None);

    let mut data = good.clone();
    put_u16(&mut data, 64 + 6, 0);
    assert_eq!(read_pe_version(&data), None);

    let mut data = good.clone();
    put_u32(&mut data, 64 + 24 + 112, 0x5000);
    assert_eq!(read_pe_version(&data), None);

    let mut data = good.clone();
    put_u32(&mut data, 64 + 24 + 224 + 20, 0);
    assert_eq!(read_pe_version(&data), None);

    let mut data = good.clone();
    put_u32(&mut data, 64 + 24 + 224 + 20, 0x00FF_FFFF);
    assert_eq!(read_pe_version(&data), None);

    let mut data = good.clone();
    put_u32(&mut data, 64 + 24 + 224 + 10 + 48, 0);
    assert_eq!(read_pe_version(&data), None);
}

#[test]
fn short_pe32_plus_header_has_no_resources() {
    let mut data = executable(false, [1, 2, 3, 4], 10, 1);
    put_u16(&mut data, 64 + 24, 0x20b);
    put_u16(&mut data, 64 + 20, 130);
    assert_eq!(read_pe_version(&data), None);
}
