use std::collections::BTreeMap;

use sp_core::storage::Storage;
use test_collator::export::{export_genesis_wasm, plan_export, Destination};
use test_collator::genesis::extract_genesis_wasm;
use test_collator::hex::render_artifact;

fn decode_hex(text: &[u8]) -> Vec<u8> {
    assert!(text.starts_with(b"0x"));
    let digits = &text[2..];
    assert_eq!(digits.len() % 2, 0);
    let value = |c: u8| -> u8 {
        match c {
            b'0'..=b'9' => c - b'0',
            b'a'..=b'f' => c - b'a' + 10,
            _ => panic!("not a lowercase hex digit: {}", c),
        }
    };
    digits.chunks(2).map(|p| value(p[0]) * 16 + value(p[1])).collect()
}

fn storage_with(entries: Vec<(Vec<u8>, Vec<u8>)>) -> Storage {
    Storage { top: entries.into_iter().collect::<BTreeMap<_, _>>(), children_default: Default::default() }
}

#[test]
fn raw_rendering_keeps_bytes() {
    let bytes = vec![0u8, 1, 0xff, 0x7f];
    assert_eq!(render_artifact(bytes.clone(), true), bytes);
}

#[test]
fn hex_rendering_of_known_bytes() {
    assert_eq!(render_artifact(vec![0x00, 0xab, 0x10, 0xff], false), b"0x00ab10ff".to_vec());
}

#[test]
fn hex_rendering_of_empty_artifact() {
    assert_eq!(render_artifact(vec![], false), b"0x".to_vec());
    assert_eq!(render_artifact(vec![], true), Vec::<u8>::new());
}

#[test]
fn hex_rendering_decodes_to_raw() {
    let bytes: Vec<u8> = (0..=255u8).collect();
    let raw = render_artifact(bytes.clone(), true);
    let hex = render_artifact(bytes, false);
    assert_eq!(&hex[..2], b"0x");
    assert_eq!(decode_hex(&hex), raw);
}

#[test]
fn long_artifact_is_rendered_whole() {
    let bytes = vec![0x5au8; 2000];
    let hex = render_artifact(bytes.clone(), false);
    assert_eq!(hex.len(), 2 + 4000);
    assert_eq!(decode_hex(&hex), bytes);
}

#[test]
fn rendering_is_deterministic() {
    let bytes = vec![9u8, 8, 7];
    assert_eq!(render_artifact(bytes.clone(), false), render_artifact(bytes.clone(), false));
    assert_eq!(render_artifact(bytes.clone(), true), render_artifact(bytes, true));
}

#[test]
fn output_path_selects_file() {
    let plan = plan_export(vec![1, 2], false, Some("genesis.hex".to_string()));
    match plan.destination {
        Destination::File(path) => assert_eq!(path, "genesis.hex"),
        Destination::Stdout => panic!("expected a file destination"),
    }
    assert_eq!(plan.contents, b"0x0102".to_vec());
}

#[test]
fn no_output_path_selects_stdout() {
    let plan = plan_export(vec![1, 2], true, None);
    assert!(matches!(plan.destination, Destination::Stdout));
    assert_eq!(plan.contents, vec![1, 2]);
}

#[test]
fn wasm_is_taken_from_code_key() {
    let storage = storage_with(vec![
        (b":code".to_vec(), vec![0x00, 0x61, 0x73, 0x6d]),
        (b":heappages".to_vec(), vec![8]),
    ]);
    assert_eq!(extract_genesis_wasm(storage), Ok(vec![0x00, 0x61, 0x73, 0x6d]));
}

#[test]
fn missing_code_is_an_error() {
    let storage = storage_with(vec![(b":heappages".to_vec(), vec![8])]);
    assert_eq!(
        extract_genesis_wasm(storage),
        Err("Could not find wasm file in genesis state!".to_string())
    );
}

#[test]
fn wasm_export_plans_hex_to_file() {
    let storage = storage_with(vec![(b":code".to_vec(), vec![0xde, 0xad])]);
    let plan = export_genesis_wasm(storage, false, Some("out.wasm.hex".to_string())).unwrap();
    assert_eq!(plan.contents, b"0xdead".to_vec());
    assert!(matches!(plan.destination, Destination::File(ref p) if p == "out.wasm.hex"));
}

#[test]
fn wasm_export_without_code_plans_nothing() {
    let storage = storage_with(vec![]);
    let r = export_genesis_wasm(storage, true, None);
    assert_eq!(r.unwrap_err(), "Could not find wasm file in genesis state!");
}
