//! The script-group resolver and debugger command synthesizer: turns a
//! chosen verification group into the one command line that replays it,
//! in either of the two supported debugger contracts.

use crate::builder::bytes_eq;
use crate::digest::{data_digest, data_digest_of, script_digest, script_digest_of};
use crate::model::{hash_type_code, hash_type_code_of, seq_view, CellOutput, CellOutputV, Script,
    ScriptV};
use crate::text::{dec_of, hex_field, push_dec, push_hex_field};
use crate::Error;
use vstd::pervasive::unreached;
use vstd::prelude::*;
use vstd::string::StringExecFns;

verus! {

/// Which script a verification group runs: the lock scripts of its cells,
/// or their type scripts.
#[derive(Debug, Clone, Copy, PartialEq, Eq, Structural)]
pub enum GroupKind {
    Lock,
    Type,
}

/// The literal tag under which a group kind appears in the command line.
pub open spec fn group_kind_tag(k: GroupKind) -> Seq<char> {
    match k {
        GroupKind::Lock => "lock"@,
        GroupKind::Type => "type"@,
    }
}

/// One verification group, as the verification engine enumerates them: its
/// kind, the one script it runs, and the indices of the input and output
/// cells that share that script.
#[derive(Debug)]
pub struct VerificationGroup {
    pub kind: GroupKind,
    pub script: Script,
    pub input_indices: Vec<u32>,
    pub output_indices: Vec<u32>,
}

#[verifier::ext_equal]
pub struct VerificationGroupV {
    pub kind: GroupKind,
    pub script: ScriptV,
    pub input_indices: Seq<u32>,
    pub output_indices: Seq<u32>,
}

impl View for VerificationGroup {
    type V = VerificationGroupV;

    open spec fn view(&self) -> VerificationGroupV {
        VerificationGroupV {
            kind: self.kind,
            script: self.script@,
            input_indices: self.input_indices@,
            output_indices: self.output_indices@,
        }
    }
}

impl VerificationGroupV {
    /// A group runs one script over at least one cell.
    pub open spec fn wf(self) -> bool {
        &&& self.script.wf()
        &&& self.input_indices.len() > 0 || self.output_indices.len() > 0
    }
}

/// Whether every group is well formed.
pub open spec fn groups_wf(groups: Seq<VerificationGroupV>) -> bool {
    forall|i: int| 0 <= i < groups.len() ==> (#[trigger] groups[i]).wf()
}

/// The cell index a group resolves to: its first input index if it has
/// any, else its first output index.
pub open spec fn sel_index(g: VerificationGroupV) -> u32 {
    if g.input_indices.len() > 0 {
        g.input_indices[0]
    } else {
        g.output_indices[0]
    }
}

/// Which side the resolved cell index addresses.
pub open spec fn sel_side_tag(g: VerificationGroupV) -> Seq<char> {
    if g.input_indices.len() > 0 {
        "input"@
    } else {
        "output"@
    }
}

/// The cell-addressed command line, before the optional debug-attach
/// flags.
pub open spec fn cell_command_base(
    debugger: Seq<char>,
    bin: Seq<char>,
    tx_file: Seq<char>,
    g: VerificationGroupV,
) -> Seq<char> {
    debugger + " --bin "@ + bin + " --tx-file "@ + tx_file + " --cell-index "@ + dec_of(
        sel_index(g) as nat,
    ) + " --script-group-type "@ + group_kind_tag(g.kind) + " --cell-type "@ + sel_side_tag(g)
}

/// The cell-addressed command line: with a debug endpoint supplied, the
/// debug-attach flags follow.
pub open spec fn cell_command(
    debugger: Seq<char>,
    bin: Seq<char>,
    tx_file: Seq<char>,
    g: VerificationGroupV,
    gdb_listen: Option<Seq<char>>,
) -> Seq<char> {
    match gdb_listen {
        Some(addr) => cell_command_base(debugger, bin, tx_file, g) + " --mode gdb --gdb-listen "@
            + addr,
        None => cell_command_base(debugger, bin, tx_file, g),
    }
}

/// The hash-addressed command line of the legacy contract: the group is
/// addressed by a script hash instead of a cell index.
pub open spec fn hash_command(
    debugger: Seq<char>,
    bin: Seq<char>,
    tx_file: Seq<char>,
    kind: GroupKind,
    script_hash: Seq<u8>,
) -> Seq<char> {
    debugger + " --bin "@ + bin + " --tx-file "@ + tx_file + " --script-group-type "@
        + group_kind_tag(kind) + " --script-hash "@ + hex_field(script_hash)
}

/// The script whose hash addresses the group in the legacy contract: the
/// lock script of the group's first input cell, or its type script for a
/// type group.
pub open spec fn selected_script(g: VerificationGroupV, cells: Seq<CellOutputV>) -> ScriptV {
    let c = cells[g.input_indices[0] as int];
    match g.kind {
        GroupKind::Lock => c.lock,
        GroupKind::Type => c.type_->0,
    }
}

/// Whether every input index of every group addresses a cell, and a type
/// group's cells carry type scripts: the shape the verification engine
/// guarantees of the groups it enumerates.
pub open spec fn groups_match_cells(
    groups: Seq<VerificationGroupV>,
    cells: Seq<CellOutputV>,
) -> bool {
    forall|i: int, j: int|
        0 <= i < groups.len() && 0 <= j < groups[i].input_indices.len() ==> {
            let k = #[trigger] groups[i].input_indices[j];
            &&& k < cells.len()
            &&& cells[k as int].wf()
            &&& (groups[i].kind == GroupKind::Type ==> cells[k as int].type_ is Some)
        }
}

/// Synthesizes the cell-addressed debugger command for one verification
/// group.
///
/// Exactly the indices below the group count yield a command: one command
/// per enumerated group, and a lookup failure for every index at or above
/// the count. The command selects the group's first input cell if the
/// group has inputs, else its first output cell, and tags which side the
/// index addresses; a supplied debug endpoint appends the debug-attach
/// flags. The paths are embedded as given: the caller supplies them
/// already made absolute.
pub fn synthesize_cell_command(
    debugger: &str,
    bin_path: &str,
    tx_file: &str,
    groups: &Vec<VerificationGroup>,
    group_index: usize,
    gdb_listen: &Option<String>,
) -> (r: Result<String, Error>)
    requires
        groups_wf(seq_view(groups@)),
    ensures
        r is Ok <==> group_index < groups@.len(),
        r is Err ==> r->Err_0 == Error::LookupFailure,
        r is Ok ==> r->Ok_0@ == cell_command(
            debugger@,
            bin_path@,
            tx_file@,
            groups@[group_index as int]@,
            match gdb_listen {
                Some(a) => Some(a@),
                None => None,
            },
        ),
{
    if group_index >= groups.len() {
        return Err(Error::LookupFailure);
    }
    let g = &groups[group_index];
    assert(seq_view(groups@)[group_index as int] == g@);
    let mut out = String::from_str(debugger);
    out.append(" --bin ");
    out.append(bin_path);
    out.append(" --tx-file ");
    out.append(tx_file);
    out.append(" --cell-index ");
    if g.input_indices.len() > 0 {
        push_dec(&mut out, g.input_indices[0] as u64);
    } else {
        push_dec(&mut out, g.output_indices[0] as u64);
    }
    out.append(" --script-group-type ");
    match g.kind {
        GroupKind::Lock => out.append("lock"),
        GroupKind::Type => out.append("type"),
    }
    out.append(" --cell-type ");
    if g.input_indices.len() > 0 {
        out.append("input");
    } else {
        out.append("output");
    }
    assert(out@ == cell_command_base(debugger@, bin_path@, tx_file@, g@));
    match gdb_listen {
        Some(addr) => {
            out.append(" --mode gdb --gdb-listen ");
            out.append(addr.as_str());
        },
        None => {},
    }
    Ok(out)
}

/// Synthesizes the hash-addressed debugger command of the legacy contract
/// for one verification group.
///
/// The group index must be below the group count and the binary under test
/// must be non-empty; the group's script code hash must equal the binary's
/// content digest, since a command that debugs the wrong pairing must not
/// be produced; and the group must have an input cell to compute its
/// script hash from. Each check that fails reports its own failure kind,
/// in that order. The paths are embedded as given: the caller supplies
/// them already made absolute, and the binary's content as read from disk.
pub fn synthesize_hash_command(
    debugger: &str,
    bin_path: &str,
    tx_file: &str,
    groups: &Vec<VerificationGroup>,
    group_index: usize,
    input_cells: &Vec<CellOutput>,
    binary: &Vec<u8>,
) -> (r: Result<String, Error>)
    requires
        groups_wf(seq_view(groups@)),
        groups_match_cells(seq_view(groups@), seq_view(input_cells@)),
    ensures
        r is Ok <==> group_index < groups@.len() && binary@.len() > 0 && data_digest_of(binary@)
            == groups@[group_index as int]@.script.code_hash && groups@[group_index as int]@.input_indices.len()
            > 0,
        group_index >= groups@.len() ==> r == Err::<String, Error>(Error::LookupFailure),
        group_index < groups@.len() && binary@.len() == 0 ==> r == Err::<String, Error>(
            Error::IOFailure,
        ),
        group_index < groups@.len() && binary@.len() > 0 && data_digest_of(binary@)
            != groups@[group_index as int]@.script.code_hash ==> r == Err::<String, Error>(
            Error::ConsistencyFailure,
        ),
        group_index < groups@.len() && binary@.len() > 0 && data_digest_of(binary@)
            == groups@[group_index as int]@.script.code_hash && groups@[group_index as int]@.input_indices.len()
            == 0 ==> r == Err::<String, Error>(Error::LookupFailure),
        r is Ok ==> ({
            let g = groups@[group_index as int]@;
            let s = selected_script(g, seq_view(input_cells@));
            r->Ok_0@ == hash_command(
                debugger@,
                bin_path@,
                tx_file@,
                g.kind,
                script_digest_of(s.code_hash, hash_type_code_of(s.hash_type), s.args),
            )
        }),
{
    if group_index >= groups.len() {
        return Err(Error::LookupFailure);
    }
    if binary.len() == 0 {
        return Err(Error::IOFailure);
    }
    let g = &groups[group_index];
    assert(seq_view(groups@)[group_index as int] == g@);
    let bin_digest = data_digest(binary);
    if !bytes_eq(&bin_digest, &g.script.code_hash) {
        return Err(Error::ConsistencyFailure);
    }
    if g.input_indices.len() == 0 {
        return Err(Error::LookupFailure);
    }
    let k = g.input_indices[0];
    assert(seq_view(input_cells@)[k as int] == input_cells@[k as int]@);
    let cell = &input_cells[k as usize];
    let script: &Script = match g.kind {
        GroupKind::Lock => &cell.lock,
        GroupKind::Type => match &cell.type_ {
            Some(s) => s,
            None => unreached(),
        },
    };
    let code = hash_type_code(script.hash_type);
    let script_hash = script_digest(&script.code_hash, code, &script.args);
    let mut out = String::from_str(debugger);
    out.append(" --bin ");
    out.append(bin_path);
    out.append(" --tx-file ");
    out.append(tx_file);
    out.append(" --script-group-type ");
    match g.kind {
        GroupKind::Lock => out.append("lock"),
        GroupKind::Type => out.append("type"),
    }
    out.append(" --script-hash ");
    push_hex_field(&mut out, script_hash.as_slice());
    assert(script@ == selected_script(g@, seq_view(input_cells@)));
    Ok(out)
}

} // verus!
