use ckb_debugger_dumper::dump_tx_json;
use ckb_debugger_dumper::model::{
    CellDep, CellInput, CellOutput, DepKind, HashType, Header, OutPoint, ResolvedCell, ResolvedTx,
    Script, TxBody,
};
use ckb_debugger_dumper::subst::BinEntry;
use ckb_debugger_dumper::Error;
use ckb_types::prelude::Entity;

fn script(fill: u8, hash_type: HashType, args: Vec<u8>) -> Script {
    Script { code_hash: vec![fill; 32], hash_type, args }
}

fn cell(capacity: u64, lock: Script, type_: Option<Script>) -> CellOutput {
    CellOutput { capacity, lock, type_ }
}

fn out_point(fill: u8, index: u32) -> OutPoint {
    OutPoint { tx_hash: vec![fill; 32], index }
}

fn prefixed(payload: &[u8]) -> Vec<u8> {
    let mut buf = (payload.len() as u32).to_le_bytes().to_vec();
    buf.extend_from_slice(payload);
    buf
}

fn empty_tx_body() -> TxBody {
    TxBody {
        version: 0,
        cell_deps: Vec::new(),
        header_deps: Vec::new(),
        inputs: Vec::new(),
        outputs: Vec::new(),
        outputs_data: Vec::new(),
        witnesses: Vec::new(),
    }
}

fn empty_rtx() -> ResolvedTx {
    ResolvedTx {
        transaction: empty_tx_body(),
        resolved_inputs: Vec::new(),
        resolved_cell_deps: Vec::new(),
        resolved_dep_groups: Vec::new(),
    }
}

fn one_input_rtx(dep_data: Vec<u8>) -> ResolvedTx {
    let lock = script(1, HashType::Data, vec![4; 4]);
    let type_ = script(2, HashType::Type, vec![6; 8]);
    ResolvedTx {
        transaction: TxBody {
            version: 0,
            cell_deps: vec![CellDep { out_point: out_point(3, 0), dep_type: DepKind::Code }],
            header_deps: Vec::new(),
            inputs: vec![CellInput { since: 0, previous_output: out_point(8, 0) }],
            outputs: vec![cell(100, script(1, HashType::Data, vec![4; 4]), None)],
            outputs_data: vec![prefixed(&[10u8; 123])],
            witnesses: vec![prefixed(&[5u8; 100])],
        },
        resolved_inputs: vec![ResolvedCell {
            out_point: out_point(8, 0),
            output: cell(100, lock, None),
            data: Some(vec![5u8; 123]),
        }],
        resolved_cell_deps: vec![ResolvedCell {
            out_point: out_point(3, 0),
            output: cell(200, script(9, HashType::Data1, Vec::new()), Some(type_)),
            data: Some(dep_data),
        }],
        resolved_dep_groups: Vec::new(),
    }
}

#[test]
fn empty_transaction_document() {
    let r = dump_tx_json(&empty_rtx(), &Vec::new(), &None, &None);
    assert_eq!(
        r.unwrap(),
        "{\"mock_info\":{\"inputs\":[],\"cell_deps\":[],\"header_deps\":[]},\
         \"tx\":{\"version\":\"0x0\",\"cell_deps\":[],\"header_deps\":[],\"inputs\":[],\
         \"outputs\":[],\"outputs_data\":[],\"witnesses\":[]}}"
    );
}

#[test]
fn document_is_deterministic() {
    let d1 = dump_tx_json(&one_input_rtx(vec![7; 40]), &Vec::new(), &None, &None).unwrap();
    let d2 = dump_tx_json(&one_input_rtx(vec![7; 40]), &Vec::new(), &None, &None).unwrap();
    assert_eq!(d1, d2);
}

#[test]
fn reference_binary_dep_renders_empty() {
    // The dependency whose data hash equals the reference binary's hash is
    // rendered as the literal empty buffer.
    let dep_data = vec![0x05u8; 123];
    let ref_hash =
        ckb_types::packed::CellOutput::calc_data_hash(&dep_data).as_slice().to_vec();
    let rtx = one_input_rtx(dep_data);
    let doc = dump_tx_json(&rtx, &Vec::new(), &Some(ref_hash), &None).unwrap();
    let v: serde_json::Value = serde_json::from_str(&doc).unwrap();
    assert_eq!(v["mock_info"]["cell_deps"][0]["data"].as_str().unwrap(), "0x");
    // The input's own data is untouched.
    let mut expected_input = String::from("0x");
    for _ in 0..123 {
        expected_input.push_str("05");
    }
    assert_eq!(v["mock_info"]["inputs"][0]["data"].as_str().unwrap(), expected_input);
}

#[test]
fn other_dep_renders_full_hex() {
    let dep_data = vec![0xabu8; 3];
    let other = vec![1u8, 2, 3];
    let ref_hash = ckb_types::packed::CellOutput::calc_data_hash(&other).as_slice().to_vec();
    let doc = dump_tx_json(&one_input_rtx(dep_data), &Vec::new(), &Some(ref_hash), &None).unwrap();
    let v: serde_json::Value = serde_json::from_str(&doc).unwrap();
    assert_eq!(v["mock_info"]["cell_deps"][0]["data"].as_str().unwrap(), "0xababab");
}

#[test]
fn witness_prefix_is_stripped() {
    let doc = dump_tx_json(&one_input_rtx(vec![7; 4]), &Vec::new(), &None, &None).unwrap();
    let v: serde_json::Value = serde_json::from_str(&doc).unwrap();
    let w = v["tx"]["witnesses"][0].as_str().unwrap();
    // 100 witness bytes of 0x05: the four prefix bytes are gone.
    assert_eq!(w.len(), 2 + 200);
    assert!(w.starts_with("0x0505"));
    let d = v["tx"]["outputs_data"][0].as_str().unwrap();
    assert_eq!(d.len(), 2 + 246);
    assert!(d.starts_with("0x0a0a"));
}

#[test]
fn malformed_witness_is_encoding_violation() {
    let mut rtx = one_input_rtx(vec![7; 4]);
    rtx.transaction.witnesses = vec![vec![9, 0, 0, 0, 1]];
    let r = dump_tx_json(&rtx, &Vec::new(), &None, &None);
    assert_eq!(r.unwrap_err(), Error::EncodingViolation);
}

#[test]
fn missing_cell_data_is_lookup_failure() {
    let mut rtx = one_input_rtx(vec![7; 4]);
    rtx.resolved_cell_deps[0].data = None;
    let r = dump_tx_json(&rtx, &Vec::new(), &None, &None);
    assert_eq!(r.unwrap_err(), Error::LookupFailure);
}

#[test]
fn missing_header_is_lookup_failure() {
    let mut rtx = one_input_rtx(vec![7; 4]);
    rtx.transaction.header_deps = vec![vec![0xcc; 32]];
    let r = dump_tx_json(&rtx, &Vec::new(), &None, &None);
    assert_eq!(r.unwrap_err(), Error::LookupFailure);
}

#[test]
fn substitution_rewrites_matching_leaf() {
    // A dependency of 1050 data bytes against a 1000-byte candidate file.
    let rtx = one_input_rtx(vec![0x11u8; 1050]);
    let entries = vec![BinEntry { path: String::from("/tmp/bins/a"), size: 1000 }];
    let doc = dump_tx_json(&rtx, &Vec::new(), &None, &Some(entries)).unwrap();
    let v: serde_json::Value = serde_json::from_str(&doc).unwrap();
    assert_eq!(
        v["mock_info"]["cell_deps"][0]["data"].as_str().unwrap(),
        "0x{{ data /tmp/bins/a }}"
    );
}

#[test]
fn substitution_leaves_non_matching_leaf() {
    let rtx = one_input_rtx(vec![0x11u8; 1101]);
    let entries = vec![BinEntry { path: String::from("/tmp/bins/a"), size: 1000 }];
    let doc = dump_tx_json(&rtx, &Vec::new(), &None, &Some(entries)).unwrap();
    let v: serde_json::Value = serde_json::from_str(&doc).unwrap();
    let leaf = v["mock_info"]["cell_deps"][0]["data"].as_str().unwrap();
    assert_eq!(leaf.len(), 2 + 2202);
}

#[test]
fn placeholder_path_is_json_escaped() {
    let rtx = one_input_rtx(vec![0x11u8; 10]);
    let entries = vec![BinEntry { path: String::from("/tmp/od\"d\\bin"), size: 10 }];
    let doc = dump_tx_json(&rtx, &Vec::new(), &None, &Some(entries)).unwrap();
    let v: serde_json::Value = serde_json::from_str(&doc).unwrap();
    assert_eq!(
        v["mock_info"]["cell_deps"][0]["data"].as_str().unwrap(),
        "0x{{ data /tmp/od\"d\\bin }}"
    );
}

#[test]
fn header_fields_render_canonically() {
    let header = Header {
        hash: vec![0xaa; 32],
        version: 1,
        compact_target: 1,
        timestamp: 1231231231,
        number: 0,
        epoch: 5,
        parent_hash: vec![0; 32],
        transactions_root: vec![1; 32],
        proposals_hash: vec![2; 32],
        extra_hash: vec![3; 32],
        dao: vec![4; 32],
        nonce: 123123132123132,
    };
    let mut rtx = one_input_rtx(vec![7; 4]);
    rtx.transaction.header_deps = vec![vec![0xaa; 32]];
    let doc = dump_tx_json(&rtx, &vec![header], &None, &None).unwrap();
    let v: serde_json::Value = serde_json::from_str(&doc).unwrap();
    let h = &v["mock_info"]["header_deps"][0];
    assert_eq!(h["version"].as_str().unwrap(), "0x1");
    assert_eq!(h["timestamp"].as_str().unwrap(), format!("0x{:x}", 1231231231u64));
    assert_eq!(h["number"].as_str().unwrap(), "0x0");
    assert_eq!(h["epoch"].as_str().unwrap(), "0x5");
    assert_eq!(h["nonce"].as_str().unwrap(), format!("0x{:x}", 123123132123132u64));
    let mut expected_dao = String::from("0x");
    for _ in 0..32 {
        expected_dao.push_str("04");
    }
    assert_eq!(h["dao"].as_str().unwrap(), expected_dao);
    // The declared hash appears both in the header record and the body.
    assert_eq!(h["hash"], v["tx"]["header_deps"][0]);
}

#[test]
fn duplicate_header_hashes_resolve_to_first() {
    let mut first = Header {
        hash: vec![0xaa; 32],
        version: 7,
        compact_target: 1,
        timestamp: 1,
        number: 1,
        epoch: 1,
        parent_hash: vec![0; 32],
        transactions_root: vec![0; 32],
        proposals_hash: vec![0; 32],
        extra_hash: vec![0; 32],
        dao: vec![0; 32],
        nonce: 0,
    };
    let mut second = Header {
        hash: vec![0xaa; 32],
        version: 9,
        compact_target: 1,
        timestamp: 1,
        number: 1,
        epoch: 1,
        parent_hash: vec![0; 32],
        transactions_root: vec![0; 32],
        proposals_hash: vec![0; 32],
        extra_hash: vec![0; 32],
        dao: vec![0; 32],
        nonce: 0,
    };
    first.nonce = u128::MAX;
    second.nonce = 1;
    let mut rtx = one_input_rtx(vec![7; 4]);
    rtx.transaction.header_deps = vec![vec![0xaa; 32]];
    let doc = dump_tx_json(&rtx, &vec![first, second], &None, &None).unwrap();
    let v: serde_json::Value = serde_json::from_str(&doc).unwrap();
    let h = &v["mock_info"]["header_deps"][0];
    assert_eq!(h["version"].as_str().unwrap(), "0x7");
    assert_eq!(h["nonce"].as_str().unwrap(), format!("0x{:x}", u128::MAX));
}

#[test]
fn integer_fields_use_minimal_hex() {
    let mut rtx = one_input_rtx(vec![7; 4]);
    rtx.transaction.inputs[0].since = 0x123456789a;
    rtx.resolved_inputs[0].output.capacity = 0xffffffffffffffff;
    let doc = dump_tx_json(&rtx, &Vec::new(), &None, &None).unwrap();
    let v: serde_json::Value = serde_json::from_str(&doc).unwrap();
    assert_eq!(v["mock_info"]["inputs"][0]["input"]["since"].as_str().unwrap(), "0x123456789a");
    assert_eq!(
        v["mock_info"]["inputs"][0]["output"]["capacity"].as_str().unwrap(),
        "0xffffffffffffffff"
    );
    assert_eq!(v["mock_info"]["cell_deps"][0]["cell_dep"]["dep_type"].as_str().unwrap(), "code");
    assert_eq!(
        v["mock_info"]["cell_deps"][0]["output"]["lock"]["hash_type"].as_str().unwrap(),
        "data1"
    );
    assert_eq!(
        v["mock_info"]["cell_deps"][0]["output"]["type"]["hash_type"].as_str().unwrap(),
        "type"
    );
    assert!(v["mock_info"]["inputs"][0]["output"]["type"].is_null());
}
