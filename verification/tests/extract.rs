use wasi_tests_toml::{extract, ExtractError};

const HEADER: [u8; 8] = [0x00, 0x61, 0x73, 0x6d, 0x01, 0x00, 0x00, 0x00];

/// A section with the given id and contents of fewer than 128 bytes.
fn section(id: u8, contents: &[u8]) -> Vec<u8> {
    assert!(contents.len() < 128);
    let mut out = vec![id, contents.len() as u8];
    out.extend_from_slice(contents);
    out
}

/// A custom section with a short name and short contents.
fn custom(name: &str, data: &[u8]) -> Vec<u8> {
    assert!(name.len() < 128);
    let mut contents = vec![name.len() as u8];
    contents.extend_from_slice(name.as_bytes());
    contents.extend_from_slice(data);
    section(0, &contents)
}

fn module(sections: &[Vec<u8>]) -> Vec<u8> {
    let mut out = HEADER.to_vec();
    for section in sections {
        out.extend_from_slice(section);
    }
    out
}

/// The type, function and code sections of a module with one empty function.
fn one_function() -> Vec<Vec<u8>> {
    vec![
        section(1, &[0x01, 0x60, 0x00, 0x00]),
        section(3, &[0x01, 0x00]),
        section(10, &[0x01, 0x02, 0x00, 0x0b]),
    ]
}

#[test]
fn extract_returns_the_contents_of_the_named_section() {
    let wasm = module(&[custom(".test.data", b"exit = 2\n")]);
    assert_eq!(extract(&wasm, ".test.data"), Ok(b"exit = 2\n".to_vec()));
}

#[test]
fn extract_returns_empty_contents() {
    let wasm = module(&[custom("empty", b"")]);
    assert_eq!(extract(&wasm, "empty"), Ok(Vec::new()));
}

#[test]
fn extract_compares_the_whole_name() {
    let wasm = module(&[custom(".test.data0", b"a"), custom(".test.dat", b"b")]);
    assert_eq!(extract(&wasm, ".test.data"), Err(ExtractError::SectionNotFound));
    assert_eq!(extract(&wasm, ".test.dat"), Ok(b"b".to_vec()));
    assert_eq!(extract(&wasm, ".test.data0"), Ok(b"a".to_vec()));
    assert_eq!(extract(&wasm, ""), Err(ExtractError::SectionNotFound));
}

#[test]
fn extract_takes_the_last_of_several() {
    let wasm = module(&[
        custom("meta", b"first"),
        custom("other", b"between"),
        custom("meta", b"second"),
        custom("other", b"after"),
    ]);
    assert_eq!(extract(&wasm, "meta"), Ok(b"second".to_vec()));
    assert_eq!(extract(&wasm, "other"), Ok(b"after".to_vec()));
}

#[test]
fn extract_skips_the_other_sections() {
    let mut sections = vec![custom("before", b"1")];
    sections.extend(one_function());
    sections.push(custom("after", b"2"));
    let wasm = module(&sections);
    assert_eq!(extract(&wasm, "before"), Ok(b"1".to_vec()));
    assert_eq!(extract(&wasm, "after"), Ok(b"2".to_vec()));
    assert_eq!(extract(&wasm, "code"), Err(ExtractError::SectionNotFound));
}

#[test]
fn extract_finds_nothing_in_a_bare_module() {
    assert_eq!(extract(&HEADER, ".test.data"), Err(ExtractError::SectionNotFound));
}

#[test]
fn extract_refuses_no_bytes_at_all() {
    assert_eq!(extract(&[], ".test.data"), Err(ExtractError::InvalidBinaryFormat));
}

#[test]
fn extract_refuses_a_wrong_magic_number() {
    let mut wasm = module(&[custom(".test.data", b"x")]);
    wasm[1] = b'b';
    assert_eq!(extract(&wasm, ".test.data"), Err(ExtractError::InvalidBinaryFormat));
}

#[test]
fn extract_refuses_a_truncated_header() {
    assert_eq!(extract(&HEADER[..5], ".test.data"), Err(ExtractError::InvalidBinaryFormat));
}

#[test]
fn extract_refuses_a_section_cut_short() {
    let mut wasm = module(&[custom(".test.data", b"exit = 2\n")]);
    wasm.pop();
    assert_eq!(extract(&wasm, ".test.data"), Err(ExtractError::InvalidBinaryFormat));
}

#[test]
fn extract_refuses_a_module_broken_after_the_section() {
    let mut wasm = module(&[custom(".test.data", b"x")]);
    wasm.extend_from_slice(&[0x01, 0x7f, 0x00]);
    assert_eq!(extract(&wasm, ".test.data"), Err(ExtractError::InvalidBinaryFormat));
}

#[test]
fn extract_refuses_sections_out_of_order() {
    let mut sections = one_function();
    sections.swap(0, 2);
    let wasm = module(&sections);
    assert_eq!(extract(&wasm, ".test.data"), Err(ExtractError::InvalidBinaryFormat));
}

#[test]
fn extract_refuses_a_name_that_is_no_text() {
    let wasm = module(&[section(0, &[0x02, 0xff, 0xfe, b'x'])]);
    assert_eq!(extract(&wasm, ".test.data"), Err(ExtractError::InvalidBinaryFormat));
}

/// An unsigned LEB128 number.
fn leb(mut n: usize) -> Vec<u8> {
    let mut out = Vec::new();
    loop {
        let low = (n & 0x7f) as u8;
        n >>= 7;
        if n == 0 {
            out.push(low);
            return out;
        }
        out.push(low | 0x80);
    }
}

/// A custom section of any length.
fn long_custom(name: &str, data: &[u8]) -> Vec<u8> {
    let mut contents = leb(name.len());
    contents.extend_from_slice(name.as_bytes());
    contents.extend_from_slice(data);
    let mut out = vec![0u8];
    out.extend(leb(contents.len()));
    out.extend(contents);
    out
}

#[test]
fn extract_returns_long_contents() {
    let data: Vec<u8> = (0..70_000u32).map(|i| (i % 251) as u8).collect();
    let wasm = module(&[
        custom("short", b"s"),
        long_custom(".test.data", &data),
        long_custom("tail", &data[..300]),
    ]);
    assert_eq!(extract(&wasm, ".test.data"), Ok(data.clone()));
    assert_eq!(extract(&wasm, "tail"), Ok(data[..300].to_vec()));
    assert_eq!(extract(&wasm, "short"), Ok(b"s".to_vec()));
}

#[test]
fn extract_takes_names_that_are_not_ascii() {
    let wasm = module(&[long_custom("m\u{e9}ta", b"1"), long_custom("meta", b"2")]);
    assert_eq!(extract(&wasm, "m\u{e9}ta"), Ok(b"1".to_vec()));
    assert_eq!(extract(&wasm, "meta"), Ok(b"2".to_vec()));
}

#[test]
fn extract_refuses_a_size_that_reaches_past_the_end() {
    let mut wasm = HEADER.to_vec();
    wasm.extend_from_slice(&[0x00, 0x20, 0x04, b'm', b'e', b't', b'a', b'x']);
    assert_eq!(extract(&wasm, "meta"), Err(ExtractError::InvalidBinaryFormat));
}

#[test]
fn extract_refuses_a_second_header() {
    let mut wasm = module(&[custom("meta", b"x")]);
    wasm.extend_from_slice(&HEADER);
    assert_eq!(extract(&wasm, "meta"), Err(ExtractError::InvalidBinaryFormat));
}
