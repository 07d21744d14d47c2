use ckb_debugger_dumper::command::{
    synthesize_cell_command, synthesize_hash_command, GroupKind, VerificationGroup,
};
use ckb_debugger_dumper::model::{CellOutput, HashType, Script};
use ckb_debugger_dumper::Error;
use ckb_types::prelude::{Builder, Entity, Pack};

fn lock_script(fill: u8) -> Script {
    Script { code_hash: vec![fill; 32], hash_type: HashType::Data1, args: vec![fill; 4] }
}

fn group(kind: GroupKind, script: Script, ins: Vec<u32>, outs: Vec<u32>) -> VerificationGroup {
    VerificationGroup { kind, script, input_indices: ins, output_indices: outs }
}

fn cell_with(lock: Script, type_: Option<Script>) -> CellOutput {
    CellOutput { capacity: 100, lock, type_ }
}

fn ckb_script_hash(s: &Script) -> Vec<u8> {
    let code = match s.hash_type {
        HashType::Data => 0u8,
        HashType::Type => 1u8,
        HashType::Data1 => 2u8,
    };
    let packed = ckb_types::packed::Script::new_builder()
        .code_hash(ckb_types::packed::Byte32::from_slice(&s.code_hash).unwrap())
        .hash_type(ckb_types::packed::Byte::new(code))
        .args(s.args.as_slice().pack())
        .build();
    packed.calc_script_hash().as_slice().to_vec()
}

fn hex_of(bytes: &[u8]) -> String {
    let mut s = String::from("0x");
    for b in bytes {
        s.push_str(&format!("{:02x}", b));
    }
    s
}

#[test]
fn cell_command_for_input_group() {
    let groups = vec![group(GroupKind::Lock, lock_script(7), vec![2, 5], vec![])];
    let r = synthesize_cell_command("ckb-debugger", "/abs/bin", "/abs/tx.json", &groups, 0, &None);
    assert_eq!(
        r.unwrap(),
        "ckb-debugger --bin /abs/bin --tx-file /abs/tx.json --cell-index 2 \
         --script-group-type lock --cell-type input"
    );
}

#[test]
fn cell_command_for_output_only_group() {
    let groups = vec![group(GroupKind::Type, lock_script(7), vec![], vec![3])];
    let r = synthesize_cell_command("dbg", "/b", "/t", &groups, 0, &None);
    assert_eq!(
        r.unwrap(),
        "dbg --bin /b --tx-file /t --cell-index 3 --script-group-type type --cell-type output"
    );
}

#[test]
fn cell_command_with_debug_endpoint() {
    let groups = vec![group(GroupKind::Lock, lock_script(1), vec![0], vec![])];
    let addr = Some(String::from("127.0.0.1:9999"));
    let r = synthesize_cell_command("dbg", "/b", "/t", &groups, 0, &addr);
    assert_eq!(
        r.unwrap(),
        "dbg --bin /b --tx-file /t --cell-index 0 --script-group-type lock --cell-type input \
         --mode gdb --gdb-listen 127.0.0.1:9999"
    );
}

#[test]
fn cell_command_index_out_of_range() {
    // One command per index below the group count; a lookup failure at it.
    let groups = vec![
        group(GroupKind::Lock, lock_script(1), vec![0], vec![]),
        group(GroupKind::Type, lock_script(2), vec![1], vec![]),
    ];
    for i in 0..2 {
        assert!(synthesize_cell_command("d", "/b", "/t", &groups, i, &None).is_ok());
    }
    let r = synthesize_cell_command("d", "/b", "/t", &groups, 2, &None);
    assert_eq!(r.unwrap_err(), Error::LookupFailure);
}

#[test]
fn hash_command_embeds_script_hash() {
    let binary = vec![0x55u8; 321];
    let bin_hash = ckb_types::packed::CellOutput::calc_data_hash(&binary).as_slice().to_vec();
    let lock = Script { code_hash: bin_hash, hash_type: HashType::Data1, args: vec![9; 8] };
    let cells = vec![cell_with(clone_script(&lock), None)];
    let groups = vec![group(GroupKind::Lock, clone_script(&lock), vec![0], vec![])];
    let r = synthesize_hash_command("dbg", "/b", "/t", &groups, 0, &cells, &binary);
    let expected_hash = hex_of(&ckb_script_hash(&lock));
    assert_eq!(
        r.unwrap(),
        format!("dbg --bin /b --tx-file /t --script-group-type lock --script-hash {}", expected_hash)
    );
}

#[test]
fn hash_command_on_mismatch_is_consistency_failure() {
    // The group's script code hash differs from the binary's content hash.
    let binary = vec![1u8, 2, 3];
    let lock = lock_script(0);
    let cells = vec![cell_with(lock_script(0), None)];
    let groups = vec![group(GroupKind::Lock, lock, vec![0], vec![])];
    let r = synthesize_hash_command("dbg", "/b", "/t", &groups, 0, &cells, &binary);
    assert_eq!(r.unwrap_err(), Error::ConsistencyFailure);
}

#[test]
fn hash_command_on_empty_binary_is_io_failure() {
    let cells = vec![cell_with(lock_script(0), None)];
    let groups = vec![group(GroupKind::Lock, lock_script(0), vec![0], vec![])];
    let r = synthesize_hash_command("dbg", "/b", "/t", &groups, 0, &cells, &Vec::new());
    assert_eq!(r.unwrap_err(), Error::IOFailure);
}

#[test]
fn hash_command_index_out_of_range() {
    let cells = vec![cell_with(lock_script(0), None)];
    let groups = vec![group(GroupKind::Lock, lock_script(0), vec![0], vec![])];
    let r = synthesize_hash_command("dbg", "/b", "/t", &groups, 1, &cells, &vec![1u8]);
    assert_eq!(r.unwrap_err(), Error::LookupFailure);
}

fn clone_script(s: &Script) -> Script {
    Script { code_hash: s.code_hash.clone(), hash_type: s.hash_type, args: s.args.clone() }
}
