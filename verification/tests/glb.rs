use gltf_viewer::glb::{check_glb_length_underflows, glb_summary};

fn glb(json: &[u8], bin: Option<&[u8]>, length_override: Option<u32>) -> Vec<u8> {
    let mut json_chunk = json.to_vec();
    while json_chunk.len() % 4 != 0 {
        json_chunk.push(b' ');
    }
    let mut out = Vec::new();
    let total = 12 + 8 + json_chunk.len() + bin.map(|b| 8 + b.len()).unwrap_or(0);
    out.extend_from_slice(b"glTF");
    out.extend_from_slice(&2u32.to_le_bytes());
    out.extend_from_slice(&length_override.unwrap_or(total as u32).to_le_bytes());
    out.extend_from_slice(&(json_chunk.len() as u32).to_le_bytes());
    out.extend_from_slice(b"JSON");
    out.extend_from_slice(&json_chunk);
    if let Some(b) = bin {
        out.extend_from_slice(&(b.len() as u32).to_le_bytes());
        out.extend_from_slice(b"BIN\0");
        out.extend_from_slice(b);
    }
    out
}

#[test]
fn summary_reports_header_json_and_bin() {
    let bytes = glb(b"{\"asset\":{}}", Some(&[1, 2, 3, 4, 5, 6, 7, 8]), None);
    let s = glb_summary(&bytes).unwrap();
    assert_eq!(s.header_length as usize, bytes.len());
    assert_eq!(s.json, "{\"asset\":{}}");
    assert_eq!(s.bin_len, 8);
}

#[test]
fn summary_replaces_json_that_is_no_utf8() {
    let bytes = glb(&[0xff, 0xfe, 0x41, 0x42], Some(&[0; 4]), None);
    let s = glb_summary(&bytes).unwrap();
    assert_eq!(s.json, "Error parsing utf8");
}

#[test]
fn summary_needs_a_bin_chunk() {
    let bytes = glb(b"{}  ", None, None);
    assert!(glb_summary(&bytes).is_none());
}

#[test]
fn summary_rejects_bad_files() {
    assert!(glb_summary(b"not a glb file at all").is_none());
    assert!(glb_summary(&[]).is_none());
    let mut wrong_version = glb(b"{}  ", Some(&[0; 4]), None);
    wrong_version[4] = 1;
    assert!(glb_summary(&wrong_version).is_none());
}

#[test]
fn header_length_below_the_header_is_caught() {
    let bytes = glb(b"{}  ", Some(&[0; 4]), Some(4));
    assert!(check_glb_length_underflows(&bytes));
    assert!(glb_summary(&bytes).is_none());
    assert!(!check_glb_length_underflows(&glb(b"{}  ", Some(&[0; 4]), None)));
    assert!(!check_glb_length_underflows(b"glTF"));
}

#[test]
fn summary_follows_the_chunk_layout() {
    // The header may give less than the whole file; the chunks are read from the rest.
    let mut bytes = glb(b"{}  ", Some(&[9; 4]), None);
    let short = 24u32.to_le_bytes();
    bytes[8..12].copy_from_slice(&short);
    let s = glb_summary(&bytes).unwrap();
    assert_eq!(s.header_length, 24);
    assert_eq!(s.bin_len, 4);
    // A header longer than the file, a binary chunk longer than what follows,
    // or a second chunk that is no BIN chunk, make no summary.
    let mut long = glb(b"{}  ", Some(&[0; 4]), None);
    let len = long.len() as u32 + 1;
    long[8..12].copy_from_slice(&len.to_le_bytes());
    assert!(glb_summary(&long).is_none());
    let mut overlong_bin = glb(b"{}  ", Some(&[0; 4]), None);
    overlong_bin[24..28].copy_from_slice(&5u32.to_le_bytes());
    assert!(glb_summary(&overlong_bin).is_none());
    let mut not_bin = glb(b"{}  ", Some(&[0; 4]), None);
    not_bin[28..32].copy_from_slice(b"JSON");
    assert!(glb_summary(&not_bin).is_none());
}
