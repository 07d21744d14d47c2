//! The original generation scenarios, carried over at the model level: the
//! same cell shapes, data sizes and header values, dumped to the document
//! and checked for structure.

use ckb_debugger_dumper::dump_tx_json;
use ckb_debugger_dumper::model::{
    CellDep, CellInput, CellOutput, DepKind, HashType, Header, OutPoint, ResolvedCell, ResolvedTx,
    Script, TxBody,
};

fn byte32(fill: u8) -> Vec<u8> {
    vec![fill; 32]
}

fn prefixed(payload: &[u8]) -> Vec<u8> {
    let mut buf = (payload.len() as u32).to_le_bytes().to_vec();
    buf.extend_from_slice(payload);
    buf
}

fn pseudo_bytes(seed: u8, n: usize) -> Vec<u8> {
    let mut v = Vec::with_capacity(n);
    let mut state = seed;
    for _ in 0..n {
        state = state.wrapping_mul(31).wrapping_add(7);
        v.push(state);
    }
    v
}

fn script_with(code_hash: Vec<u8>, hash_type: HashType, args: Vec<u8>) -> Script {
    Script { code_hash, hash_type, args }
}

fn dep_cell(tx_hash_fill: u8, data: Vec<u8>, hash_type: HashType) -> ResolvedCell {
    ResolvedCell {
        out_point: OutPoint { tx_hash: byte32(tx_hash_fill), index: 0 },
        output: CellOutput {
            capacity: 100,
            lock: script_with(byte32(0xee), HashType::Data1, Vec::new()),
            type_: Some(script_with(byte32(tx_hash_fill), hash_type, Vec::new())),
        },
        data: Some(data),
    }
}

struct CellSpec {
    input_tx_hash: Vec<u8>,
    data_len: usize,
    lock_args: Vec<u8>,
    type_args: Option<Vec<u8>>,
    witness: Vec<u8>,
}

fn build_rtx(cells: Vec<CellSpec>, deps: Vec<ResolvedCell>, headers: &[Header]) -> ResolvedTx {
    let mut inputs = Vec::new();
    let mut resolved_inputs = Vec::new();
    let mut outputs = Vec::new();
    let mut outputs_data = Vec::new();
    let mut witnesses = Vec::new();
    for (i, c) in cells.iter().enumerate() {
        inputs.push(CellInput {
            since: 0,
            previous_output: OutPoint { tx_hash: c.input_tx_hash.clone(), index: i as u32 },
        });
        let lock = script_with(byte32(1), HashType::Type, c.lock_args.clone());
        let type_ = c
            .type_args
            .as_ref()
            .map(|args| script_with(byte32(1), HashType::Type, args.clone()));
        resolved_inputs.push(ResolvedCell {
            out_point: OutPoint { tx_hash: c.input_tx_hash.clone(), index: i as u32 },
            output: CellOutput {
                capacity: 100,
                lock: script_with(byte32(1), HashType::Type, c.lock_args.clone()),
                type_: type_.as_ref().map(|s| script_with(
                    s.code_hash.clone(),
                    s.hash_type,
                    s.args.clone(),
                )),
            },
            data: Some(pseudo_bytes(i as u8, c.data_len)),
        });
        outputs.push(CellOutput { capacity: 100, lock, type_ });
        outputs_data.push(prefixed(&pseudo_bytes(i as u8 + 100, c.data_len)));
        witnesses.push(prefixed(&c.witness));
    }
    let cell_deps = deps
        .iter()
        .map(|d| CellDep {
            out_point: OutPoint { tx_hash: d.out_point.tx_hash.clone(), index: d.out_point.index },
            dep_type: DepKind::Code,
        })
        .collect();
    ResolvedTx {
        transaction: TxBody {
            version: 0,
            cell_deps,
            header_deps: headers.iter().map(|h| h.hash.clone()).collect(),
            inputs,
            outputs,
            outputs_data,
            witnesses,
        },
        resolved_inputs,
        resolved_cell_deps: deps,
        resolved_dep_groups: Vec::new(),
    }
}

#[test]
fn test_multiple() {
    let deps = vec![
        dep_cell(1, pseudo_bytes(11, 8000), HashType::Type),
        dep_cell(2, pseudo_bytes(22, 4000), HashType::Data1),
        dep_cell(3, pseudo_bytes(33, 2000), HashType::Data1),
    ];
    let cells = vec![
        CellSpec {
            input_tx_hash: byte32(0x51),
            data_len: 123,
            lock_args: pseudo_bytes(1, 32),
            type_args: None,
            witness: pseudo_bytes(2, 100),
        },
        CellSpec {
            input_tx_hash: byte32(0x52),
            data_len: 456,
            lock_args: pseudo_bytes(1, 32),
            type_args: Some(pseudo_bytes(3, 32)),
            witness: pseudo_bytes(4, 100),
        },
        CellSpec {
            input_tx_hash: byte32(0x53),
            data_len: 12,
            lock_args: pseudo_bytes(5, 32),
            type_args: Some(pseudo_bytes(3, 32)),
            witness: pseudo_bytes(6, 100),
        },
        CellSpec {
            input_tx_hash: byte32(0x54),
            data_len: 99,
            lock_args: pseudo_bytes(5, 32),
            type_args: Some(pseudo_bytes(7, 32)),
            witness: pseudo_bytes(8, 100),
        },
    ];
    let rtx = build_rtx(cells, deps, &[]);
    let doc = dump_tx_json(&rtx, &Vec::new(), &None, &None).expect("run failed");
    let v: serde_json::Value = serde_json::from_str(&doc).unwrap();
    assert_eq!(v["mock_info"]["inputs"].as_array().unwrap().len(), 4);
    assert_eq!(v["mock_info"]["cell_deps"].as_array().unwrap().len(), 3);
    assert_eq!(v["tx"]["witnesses"].as_array().unwrap().len(), 4);
    assert_eq!(
        v["mock_info"]["inputs"][1]["data"].as_str().unwrap().len(),
        2 + 2 * 456
    );
    assert_eq!(v["tx"]["witnesses"][0].as_str().unwrap().len(), 2 + 2 * 100);
}

#[test]
fn test_single() {
    let deps = vec![
        dep_cell(1, pseudo_bytes(11, 8000), HashType::Type),
        dep_cell(2, pseudo_bytes(22, 4000), HashType::Data1),
    ];
    let header = Header {
        hash: byte32(0xaa),
        version: 1,
        compact_target: 1,
        timestamp: 1231231231,
        number: 0,
        epoch: 0,
        parent_hash: byte32(0),
        transactions_root: byte32(1),
        proposals_hash: byte32(2),
        extra_hash: byte32(3),
        dao: byte32(4),
        nonce: 123123132123132,
    };
    let cells = vec![CellSpec {
        input_tx_hash: byte32(8),
        data_len: 123,
        lock_args: vec![4; 32],
        type_args: Some(vec![6; 64]),
        witness: vec![5; 100],
    }];
    let headers = vec![header];
    let rtx = build_rtx(cells, deps, &headers);
    let doc = dump_tx_json(&rtx, &headers, &None, &None).expect("run script failed");
    let v: serde_json::Value = serde_json::from_str(&doc).unwrap();
    assert_eq!(v["mock_info"]["inputs"].as_array().unwrap().len(), 1);
    assert_eq!(v["mock_info"]["header_deps"].as_array().unwrap().len(), 1);
    let h = &v["mock_info"]["header_deps"][0];
    assert_eq!(h["timestamp"].as_str().unwrap(), format!("0x{:x}", 1231231231u64));
    assert_eq!(h["nonce"].as_str().unwrap(), format!("0x{:x}", 123123132123132u64));
    let args = v["mock_info"]["inputs"][0]["output"]["type"]["args"].as_str().unwrap();
    assert_eq!(args.len(), 2 + 2 * 64);
}
