//! The in-memory model of a resolved transaction and of the mock
//! transaction built from it. Each type carries a ghost view made of
//! sequences and plain values; contracts speak over those views.

use crate::Error;
use vstd::prelude::*;
use vstd::slice::slice_to_vec;

verus! {

/// Maps a sequence of values to the sequence of their views.
pub open spec fn seq_view<T: View>(s: Seq<T>) -> Seq<T::V> {
    s.map_values(|x: T| x@)
}

/// The hash-type discriminant of a script: how its code hash addresses the
/// code to run.
#[derive(Debug, Clone, Copy, PartialEq, Eq, Structural)]
pub enum HashType {
    /// Addressed by the hash of the code's content.
    Data,
    /// Addressed by the hash of a type script.
    Type,
    /// Addressed by content hash, under the later VM version.
    Data1,
}

/// The wire discriminant of a hash type.
pub open spec fn hash_type_code_of(t: HashType) -> u8 {
    match t {
        HashType::Data => 0,
        HashType::Type => 1,
        HashType::Data1 => 2,
    }
}

/// The literal tag under which a hash type renders in the document.
pub open spec fn hash_type_tag(t: HashType) -> Seq<char> {
    match t {
        HashType::Data => "data"@,
        HashType::Type => "type"@,
        HashType::Data1 => "data1"@,
    }
}

/// Reads a hash type from its wire discriminant. Any value above the three
/// known discriminants is a fatal encoding violation.
pub fn hash_type_from_code(d: u8) -> (r: Result<HashType, Error>)
    ensures
        r is Ok <==> d <= 2,
        r is Ok ==> hash_type_code_of(r->Ok_0) == d,
        r is Err ==> r->Err_0 == Error::EncodingViolation,
{
    if d == 0 {
        Ok(HashType::Data)
    } else if d == 1 {
        Ok(HashType::Type)
    } else if d == 2 {
        Ok(HashType::Data1)
    } else {
        Err(Error::EncodingViolation)
    }
}

/// The wire discriminant of a hash type.
pub fn hash_type_code(t: HashType) -> (d: u8)
    ensures
        d == hash_type_code_of(t),
{
    match t {
        HashType::Data => 0,
        HashType::Type => 1,
        HashType::Data1 => 2,
    }
}

/// The kind tag of a cell dependency: a direct code dependency, or a
/// dependency group that expands to further dependencies. The debugger
/// replays the two kinds differently, so the tag is preserved everywhere.
#[derive(Debug, Clone, Copy, PartialEq, Eq, Structural)]
pub enum DepKind {
    Code,
    DepGroup,
}

/// The literal tag under which a dependency kind renders in the document.
pub open spec fn dep_kind_tag(k: DepKind) -> Seq<char> {
    match k {
        DepKind::Code => "code"@,
        DepKind::DepGroup => "dep_group"@,
    }
}

/// A script: a 32-byte code hash, a hash-type discriminant, and an
/// arbitrary argument buffer.
#[derive(Debug)]
pub struct Script {
    pub code_hash: Vec<u8>,
    pub hash_type: HashType,
    pub args: Vec<u8>,
}

#[verifier::ext_equal]
pub struct ScriptV {
    pub code_hash: Seq<u8>,
    pub hash_type: HashType,
    pub args: Seq<u8>,
}

impl View for Script {
    type V = ScriptV;

    open spec fn view(&self) -> ScriptV {
        ScriptV { code_hash: self.code_hash@, hash_type: self.hash_type, args: self.args@ }
    }
}

impl ScriptV {
    pub open spec fn wf(self) -> bool {
        self.code_hash.len() == 32
    }
}

/// A reference to one output of one transaction: its 32-byte transaction
/// hash and the output's index.
#[derive(Debug)]
pub struct OutPoint {
    pub tx_hash: Vec<u8>,
    pub index: u32,
}

#[verifier::ext_equal]
pub struct OutPointV {
    pub tx_hash: Seq<u8>,
    pub index: u32,
}

impl View for OutPoint {
    type V = OutPointV;

    open spec fn view(&self) -> OutPointV {
        OutPointV { tx_hash: self.tx_hash@, index: self.index }
    }
}

impl OutPointV {
    pub open spec fn wf(self) -> bool {
        self.tx_hash.len() == 32
    }
}

/// A declared cell dependency of the transaction body: an out-point plus
/// its kind tag.
#[derive(Debug)]
pub struct CellDep {
    pub out_point: OutPoint,
    pub dep_type: DepKind,
}

#[verifier::ext_equal]
pub struct CellDepV {
    pub out_point: OutPointV,
    pub dep_type: DepKind,
}

impl View for CellDep {
    type V = CellDepV;

    open spec fn view(&self) -> CellDepV {
        CellDepV { out_point: self.out_point@, dep_type: self.dep_type }
    }
}

impl CellDepV {
    pub open spec fn wf(self) -> bool {
        self.out_point.wf()
    }
}

/// An input reference of the transaction body: its original `since` field
/// and the out-point of the consumed cell.
#[derive(Debug)]
pub struct CellInput {
    pub since: u64,
    pub previous_output: OutPoint,
}

#[verifier::ext_equal]
pub struct CellInputV {
    pub since: u64,
    pub previous_output: OutPointV,
}

impl View for CellInput {
    type V = CellInputV;

    open spec fn view(&self) -> CellInputV {
        CellInputV { since: self.since, previous_output: self.previous_output@ }
    }
}

impl CellInputV {
    pub open spec fn wf(self) -> bool {
        self.previous_output.wf()
    }
}

/// An output descriptor: a capacity, a lock script, and an optional type
/// script.
#[derive(Debug)]
pub struct CellOutput {
    pub capacity: u64,
    pub lock: Script,
    pub type_: Option<Script>,
}

#[verifier::ext_equal]
pub struct CellOutputV {
    pub capacity: u64,
    pub lock: ScriptV,
    pub type_: Option<ScriptV>,
}

impl View for CellOutput {
    type V = CellOutputV;

    open spec fn view(&self) -> CellOutputV {
        CellOutputV {
            capacity: self.capacity,
            lock: self.lock@,
            type_: match self.type_ {
                Some(ref s) => Some(s@),
                None => None,
            },
        }
    }
}

impl CellOutputV {
    pub open spec fn wf(self) -> bool {
        &&& self.lock.wf()
        &&& self.type_ is Some ==> self.type_->0.wf()
    }
}

/// A full block header record, as the document replays it.
#[derive(Debug)]
pub struct Header {
    pub hash: Vec<u8>,
    pub version: u32,
    pub compact_target: u32,
    pub timestamp: u64,
    pub number: u64,
    pub epoch: u64,
    pub parent_hash: Vec<u8>,
    pub transactions_root: Vec<u8>,
    pub proposals_hash: Vec<u8>,
    pub extra_hash: Vec<u8>,
    pub dao: Vec<u8>,
    pub nonce: u128,
}

#[verifier::ext_equal]
pub struct HeaderV {
    pub hash: Seq<u8>,
    pub version: u32,
    pub compact_target: u32,
    pub timestamp: u64,
    pub number: u64,
    pub epoch: u64,
    pub parent_hash: Seq<u8>,
    pub transactions_root: Seq<u8>,
    pub proposals_hash: Seq<u8>,
    pub extra_hash: Seq<u8>,
    pub dao: Seq<u8>,
    pub nonce: u128,
}

impl View for Header {
    type V = HeaderV;

    open spec fn view(&self) -> HeaderV {
        HeaderV {
            hash: self.hash@,
            version: self.version,
            compact_target: self.compact_target,
            timestamp: self.timestamp,
            number: self.number,
            epoch: self.epoch,
            parent_hash: self.parent_hash@,
            transactions_root: self.transactions_root@,
            proposals_hash: self.proposals_hash@,
            extra_hash: self.extra_hash@,
            dao: self.dao@,
            nonce: self.nonce,
        }
    }
}

impl HeaderV {
    pub open spec fn wf(self) -> bool {
        &&& self.hash.len() == 32
        &&& self.parent_hash.len() == 32
        &&& self.transactions_root.len() == 32
        &&& self.proposals_hash.len() == 32
        &&& self.extra_hash.len() == 32
        &&& self.dao.len() == 32
    }
}

/// A resolved cell: the out-point it was resolved from, its output
/// descriptor, and its data buffer where the data provider materialized
/// one.
#[derive(Debug)]
pub struct ResolvedCell {
    pub out_point: OutPoint,
    pub output: CellOutput,
    pub data: Option<Vec<u8>>,
}

#[verifier::ext_equal]
pub struct ResolvedCellV {
    pub out_point: OutPointV,
    pub output: CellOutputV,
    pub data: Option<Seq<u8>>,
}

impl View for ResolvedCell {
    type V = ResolvedCellV;

    open spec fn view(&self) -> ResolvedCellV {
        ResolvedCellV {
            out_point: self.out_point@,
            output: self.output@,
            data: match self.data {
                Some(ref d) => Some(d@),
                None => None,
            },
        }
    }
}

impl ResolvedCellV {
    pub open spec fn wf(self) -> bool {
        &&& self.out_point.wf()
        &&& self.output.wf()
    }
}

/// The immutable transaction body, exactly as it will be replayed.
/// Output-data entries and witnesses are held in their serialized form,
/// with the four-byte length prefix still in place.
#[derive(Debug)]
pub struct TxBody {
    pub version: u32,
    pub cell_deps: Vec<CellDep>,
    pub header_deps: Vec<Vec<u8>>,
    pub inputs: Vec<CellInput>,
    pub outputs: Vec<CellOutput>,
    pub outputs_data: Vec<Vec<u8>>,
    pub witnesses: Vec<Vec<u8>>,
}

#[verifier::ext_equal]
pub struct TxBodyV {
    pub version: u32,
    pub cell_deps: Seq<CellDepV>,
    pub header_deps: Seq<Seq<u8>>,
    pub inputs: Seq<CellInputV>,
    pub outputs: Seq<CellOutputV>,
    pub outputs_data: Seq<Seq<u8>>,
    pub witnesses: Seq<Seq<u8>>,
}

impl View for TxBody {
    type V = TxBodyV;

    open spec fn view(&self) -> TxBodyV {
        TxBodyV {
            version: self.version,
            cell_deps: seq_view(self.cell_deps@),
            header_deps: self.header_deps@.map_values(|v: Vec<u8>| v@),
            inputs: seq_view(self.inputs@),
            outputs: seq_view(self.outputs@),
            outputs_data: self.outputs_data@.map_values(|v: Vec<u8>| v@),
            witnesses: self.witnesses@.map_values(|v: Vec<u8>| v@),
        }
    }
}

impl TxBodyV {
    pub open spec fn wf(self) -> bool {
        &&& forall|i: int| 0 <= i < self.cell_deps.len() ==> #[trigger] self.cell_deps[i].wf()
        &&& forall|i: int|
            0 <= i < self.header_deps.len() ==> #[trigger] self.header_deps[i].len() == 32
        &&& forall|i: int| 0 <= i < self.inputs.len() ==> #[trigger] self.inputs[i].wf()
        &&& forall|i: int| 0 <= i < self.outputs.len() ==> #[trigger] self.outputs[i].wf()
    }
}

/// A resolved transaction: the transaction body plus the concrete cell
/// every input, cell dependency and dependency group resolved to, in the
/// body's own order.
#[derive(Debug)]
pub struct ResolvedTx {
    pub transaction: TxBody,
    pub resolved_inputs: Vec<ResolvedCell>,
    pub resolved_cell_deps: Vec<ResolvedCell>,
    pub resolved_dep_groups: Vec<ResolvedCell>,
}

#[verifier::ext_equal]
pub struct ResolvedTxV {
    pub transaction: TxBodyV,
    pub resolved_inputs: Seq<ResolvedCellV>,
    pub resolved_cell_deps: Seq<ResolvedCellV>,
    pub resolved_dep_groups: Seq<ResolvedCellV>,
}

impl View for ResolvedTx {
    type V = ResolvedTxV;

    open spec fn view(&self) -> ResolvedTxV {
        ResolvedTxV {
            transaction: self.transaction@,
            resolved_inputs: seq_view(self.resolved_inputs@),
            resolved_cell_deps: seq_view(self.resolved_cell_deps@),
            resolved_dep_groups: seq_view(self.resolved_dep_groups@),
        }
    }
}

impl ResolvedTxV {
    /// The input invariant of a resolved transaction: every reference of
    /// the body has its resolved entry, in the body's order.
    pub open spec fn wf(self) -> bool {
        &&& self.transaction.wf()
        &&& self.resolved_inputs.len() == self.transaction.inputs.len()
        &&& forall|i: int|
            0 <= i < self.resolved_inputs.len() ==> #[trigger] self.resolved_inputs[i].wf()
        &&& forall|i: int|
            0 <= i < self.resolved_cell_deps.len() ==> #[trigger] self.resolved_cell_deps[i].wf()
        &&& forall|i: int|
            0 <= i < self.resolved_dep_groups.len() ==> #[trigger] self.resolved_dep_groups[i].wf()
    }
}

/// One rendered input of the mock document: the body's input reference,
/// the resolved output it consumed, and that cell's data.
#[derive(Debug)]
pub struct MockInput {
    pub input: CellInput,
    pub output: CellOutput,
    pub data: Vec<u8>,
}

#[verifier::ext_equal]
pub struct MockInputV {
    pub input: CellInputV,
    pub output: CellOutputV,
    pub data: Seq<u8>,
}

impl View for MockInput {
    type V = MockInputV;

    open spec fn view(&self) -> MockInputV {
        MockInputV { input: self.input@, output: self.output@, data: self.data@ }
    }
}

impl MockInputV {
    pub open spec fn wf(self) -> bool {
        &&& self.input.wf()
        &&& self.output.wf()
    }
}

/// One rendered cell dependency of the mock document: the dependency with
/// its kind tag, its resolved output, and that cell's data.
#[derive(Debug)]
pub struct MockCellDep {
    pub cell_dep: CellDep,
    pub output: CellOutput,
    pub data: Vec<u8>,
}

#[verifier::ext_equal]
pub struct MockCellDepV {
    pub cell_dep: CellDepV,
    pub output: CellOutputV,
    pub data: Seq<u8>,
}

impl View for MockCellDep {
    type V = MockCellDepV;

    open spec fn view(&self) -> MockCellDepV {
        MockCellDepV { cell_dep: self.cell_dep@, output: self.output@, data: self.data@ }
    }
}

impl MockCellDepV {
    pub open spec fn wf(self) -> bool {
        &&& self.cell_dep.wf()
        &&& self.output.wf()
    }
}

/// The chain state a replay needs: resolved inputs, resolved cell
/// dependencies of both kinds, and the full header of every declared
/// header dependency.
#[derive(Debug)]
pub struct MockInfo {
    pub inputs: Vec<MockInput>,
    pub cell_deps: Vec<MockCellDep>,
    pub header_deps: Vec<Header>,
}

#[verifier::ext_equal]
pub struct MockInfoV {
    pub inputs: Seq<MockInputV>,
    pub cell_deps: Seq<MockCellDepV>,
    pub header_deps: Seq<HeaderV>,
}

impl View for MockInfo {
    type V = MockInfoV;

    open spec fn view(&self) -> MockInfoV {
        MockInfoV {
            inputs: seq_view(self.inputs@),
            cell_deps: seq_view(self.cell_deps@),
            header_deps: seq_view(self.header_deps@),
        }
    }
}

impl MockInfoV {
    pub open spec fn wf(self) -> bool {
        &&& forall|i: int| 0 <= i < self.inputs.len() ==> #[trigger] self.inputs[i].wf()
        &&& forall|i: int| 0 <= i < self.cell_deps.len() ==> #[trigger] self.cell_deps[i].wf()
        &&& forall|i: int| 0 <= i < self.header_deps.len() ==> #[trigger] self.header_deps[i].wf()
    }
}

/// The self-contained mock transaction: the chain state to replay against,
/// and the transaction body to replay.
#[derive(Debug)]
pub struct MockTx {
    pub mock_info: MockInfo,
    pub tx: TxBody,
}

#[verifier::ext_equal]
pub struct MockTxV {
    pub mock_info: MockInfoV,
    pub tx: TxBodyV,
}

impl View for MockTx {
    type V = MockTxV;

    open spec fn view(&self) -> MockTxV {
        MockTxV { mock_info: self.mock_info@, tx: self.tx@ }
    }
}

impl MockTxV {
    pub open spec fn wf(self) -> bool {
        &&& self.mock_info.wf()
        &&& self.tx.wf()
    }
}

/// A fresh byte buffer with the same contents.
pub fn copy_bytes(v: &Vec<u8>) -> (r: Vec<u8>)
    ensures
        r@ == v@,
{
    slice_to_vec(v.as_slice())
}

/// A fresh script with the same contents.
pub fn copy_script(s: &Script) -> (r: Script)
    ensures
        r@ == s@,
{
    Script { code_hash: copy_bytes(&s.code_hash), hash_type: s.hash_type, args: copy_bytes(&s.args) }
}

/// A fresh out-point with the same contents.
pub fn copy_out_point(o: &OutPoint) -> (r: OutPoint)
    ensures
        r@ == o@,
{
    OutPoint { tx_hash: copy_bytes(&o.tx_hash), index: o.index }
}

/// A fresh input reference with the same contents.
pub fn copy_cell_input(c: &CellInput) -> (r: CellInput)
    ensures
        r@ == c@,
{
    CellInput { since: c.since, previous_output: copy_out_point(&c.previous_output) }
}

/// A fresh output descriptor with the same contents.
pub fn copy_cell_output(c: &CellOutput) -> (r: CellOutput)
    ensures
        r@ == c@,
{
    CellOutput {
        capacity: c.capacity,
        lock: copy_script(&c.lock),
        type_: match c.type_ {
            Some(ref s) => Some(copy_script(s)),
            None => None,
        },
    }
}

/// A fresh header record with the same contents.
pub fn copy_header(h: &Header) -> (r: Header)
    ensures
        r@ == h@,
{
    Header {
        hash: copy_bytes(&h.hash),
        version: h.version,
        compact_target: h.compact_target,
        timestamp: h.timestamp,
        number: h.number,
        epoch: h.epoch,
        parent_hash: copy_bytes(&h.parent_hash),
        transactions_root: copy_bytes(&h.transactions_root),
        proposals_hash: copy_bytes(&h.proposals_hash),
        extra_hash: copy_bytes(&h.extra_hash),
        dao: copy_bytes(&h.dao),
        nonce: h.nonce,
    }
}

} // verus!
