//! The transaction snapshot builder: projects a resolved transaction and
//! the externally supplied headers into the mock-transaction model.

use crate::model::{
    copy_bytes, copy_cell_input, copy_cell_output, copy_header, copy_out_point, seq_view, CellDep,
    CellDepV, CellInput, CellInputV, CellOutput, DepKind, Header, HeaderV, MockCellDep,
    MockCellDepV, MockInfo, MockInfoV, MockInput, MockInputV, MockTx, MockTxV, ResolvedCell,
    ResolvedCellV, ResolvedTx, ResolvedTxV, TxBody,
};
use crate::Error;
use vstd::prelude::*;

verus! {

/// Whether every resolved cell of the sequence carries its materialized
/// data buffer. A resolved cell without one is a contract violation of the
/// external data provider and makes the dump fail.
pub open spec fn cells_data_present(cells: Seq<ResolvedCellV>) -> bool {
    forall|i: int| 0 <= i < cells.len() ==> (#[trigger] cells[i].data) is Some
}

/// Whether every resolved entry of the transaction carries its data.
pub open spec fn all_data_present(rtx: ResolvedTxV) -> bool {
    &&& cells_data_present(rtx.resolved_inputs)
    &&& cells_data_present(rtx.resolved_cell_deps)
    &&& cells_data_present(rtx.resolved_dep_groups)
}

/// The first supplied header whose hash is the given one, if any.
pub open spec fn find_header(headers: Seq<HeaderV>, hash: Seq<u8>) -> Option<HeaderV>
    decreases headers.len(),
{
    if headers.len() == 0 {
        None
    } else if headers[0].hash == hash {
        Some(headers[0])
    } else {
        find_header(headers.drop_first(), hash)
    }
}

/// Whether every declared header-dependency hash has a supplied header.
pub open spec fn headers_found(headers: Seq<HeaderV>, hashes: Seq<Seq<u8>>) -> bool {
    forall|i: int| 0 <= i < hashes.len() ==> find_header(headers, #[trigger] hashes[i]) is Some
}

/// One rendered input: the body's reference paired with what it consumed.
pub open spec fn mock_input_of(inp: CellInputV, cell: ResolvedCellV) -> MockInputV {
    MockInputV { input: inp, output: cell.output, data: cell.data->0 }
}

/// One rendered cell dependency, tagged with its kind.
pub open spec fn mock_dep_of(cell: ResolvedCellV, kind: DepKind) -> MockCellDepV {
    MockCellDepV {
        cell_dep: CellDepV { out_point: cell.out_point, dep_type: kind },
        output: cell.output,
        data: cell.data->0,
    }
}

/// The mock transaction a resolved transaction projects to, given that
/// every datum is present and every header is found: inputs in the body's
/// order, direct dependencies then dependency groups, headers in the
/// body's declared order, and the body itself unchanged.
pub open spec fn mock_of(rtx: ResolvedTxV, headers: Seq<HeaderV>) -> MockTxV {
    MockTxV {
        mock_info: MockInfoV {
            inputs: Seq::new(
                rtx.resolved_inputs.len(),
                |i: int| mock_input_of(rtx.transaction.inputs[i], rtx.resolved_inputs[i]),
            ),
            cell_deps: Seq::new(
                rtx.resolved_cell_deps.len(),
                |i: int| mock_dep_of(rtx.resolved_cell_deps[i], DepKind::Code),
            ) + Seq::new(
                rtx.resolved_dep_groups.len(),
                |i: int| mock_dep_of(rtx.resolved_dep_groups[i], DepKind::DepGroup),
            ),
            header_deps: Seq::new(
                rtx.transaction.header_deps.len(),
                |i: int| find_header(headers, rtx.transaction.header_deps[i])->0,
            ),
        },
        tx: rtx.transaction,
    }
}

/// Whether two byte buffers hold the same bytes.
pub fn bytes_eq(a: &Vec<u8>, b: &Vec<u8>) -> (r: bool)
    ensures
        r <==> a@ == b@,
{
    if a.len() != b.len() {
        assert(a@ != b@);
        return false;
    }
    let n = a.len();
    for i in 0..n
        invariant
            n == a@.len() == b@.len(),
            forall|j: int| 0 <= j < i ==> a@[j] == b@[j],
    {
        if a[i] != b[i] {
            return false;
        }
    }
    assert(a@ =~= b@);
    true
}

/// The position of the first supplied header with the given hash.
fn find_header_idx(headers: &Vec<Header>, hash: &Vec<u8>) -> (r: Option<usize>)
    ensures
        r is Some <==> find_header(seq_view(headers@), hash@) is Some,
        r is Some ==> r->0 < headers@.len() && headers@[r->0 as int]@ == find_header(
            seq_view(headers@),
            hash@,
        )->0,
{
    let n = headers.len();
    assert(seq_view(headers@).skip(0) =~= seq_view(headers@));
    for i in 0..n
        invariant
            n == headers@.len(),
            find_header(seq_view(headers@), hash@) == find_header(
                seq_view(headers@).skip(i as int),
                hash@,
            ),
    {
        if bytes_eq(&headers[i].hash, hash) {
            assert(seq_view(headers@).skip(i as int)[0] == headers@[i as int]@);
            return Some(i);
        }
        proof {
            let s = seq_view(headers@);
            assert(s.skip(i as int).drop_first() =~= s.skip(i + 1));
            assert(s.skip(i as int)[0] == headers@[i as int]@);
        }
    }
    assert(seq_view(headers@).skip(n as int) =~= Seq::<HeaderV>::empty());
    None
}

/// Copies the fields of one resolved cell into a mock cell dependency of
/// the given kind, or reports the missing datum.
fn build_mock_dep(cell: &ResolvedCell, kind: DepKind) -> (r: Result<MockCellDep, Error>)
    ensures
        r is Ok <==> cell@.data is Some,
        r is Ok ==> r->Ok_0@ == mock_dep_of(cell@, kind),
        r is Err ==> r->Err_0 == Error::LookupFailure,
{
    let data = match &cell.data {
        Some(d) => copy_bytes(d),
        None => {
            return Err(Error::LookupFailure);
        },
    };
    Ok(
        MockCellDep {
            cell_dep: CellDep { out_point: copy_out_point(&cell.out_point), dep_type: kind },
            output: copy_cell_output(&cell.output),
            data,
        },
    )
}

/// A fresh transaction body with the same contents.
pub fn copy_tx_body(t: &TxBody) -> (r: TxBody)
    ensures
        r@ == t@,
{
    let mut cell_deps: Vec<CellDep> = Vec::new();
    let n1 = t.cell_deps.len();
    for i in 0..n1
        invariant
            n1 == t.cell_deps@.len(),
            cell_deps@.len() == i,
            forall|j: int| 0 <= j < i ==> (#[trigger] cell_deps@[j])@ == t.cell_deps@[j]@,
    {
        let d = &t.cell_deps[i];
        cell_deps.push(CellDep { out_point: copy_out_point(&d.out_point), dep_type: d.dep_type });
    }
    let mut header_deps: Vec<Vec<u8>> = Vec::new();
    let n2 = t.header_deps.len();
    for i in 0..n2
        invariant
            n2 == t.header_deps@.len(),
            header_deps@.len() == i,
            forall|j: int| 0 <= j < i ==> (#[trigger] header_deps@[j])@ == t.header_deps@[j]@,
    {
        header_deps.push(copy_bytes(&t.header_deps[i]));
    }
    let mut inputs: Vec<CellInput> = Vec::new();
    let n3 = t.inputs.len();
    for i in 0..n3
        invariant
            n3 == t.inputs@.len(),
            inputs@.len() == i,
            forall|j: int| 0 <= j < i ==> (#[trigger] inputs@[j])@ == t.inputs@[j]@,
    {
        inputs.push(copy_cell_input(&t.inputs[i]));
    }
    let mut outputs: Vec<CellOutput> = Vec::new();
    let n4 = t.outputs.len();
    for i in 0..n4
        invariant
            n4 == t.outputs@.len(),
            outputs@.len() == i,
            forall|j: int| 0 <= j < i ==> (#[trigger] outputs@[j])@ == t.outputs@[j]@,
    {
        outputs.push(copy_cell_output(&t.outputs[i]));
    }
    let mut outputs_data: Vec<Vec<u8>> = Vec::new();
    let n5 = t.outputs_data.len();
    for i in 0..n5
        invariant
            n5 == t.outputs_data@.len(),
            outputs_data@.len() == i,
            forall|j: int| 0 <= j < i ==> (#[trigger] outputs_data@[j])@ == t.outputs_data@[j]@,
    {
        outputs_data.push(copy_bytes(&t.outputs_data[i]));
    }
    let mut witnesses: Vec<Vec<u8>> = Vec::new();
    let n6 = t.witnesses.len();
    for i in 0..n6
        invariant
            n6 == t.witnesses@.len(),
            witnesses@.len() == i,
            forall|j: int| 0 <= j < i ==> (#[trigger] witnesses@[j])@ == t.witnesses@[j]@,
    {
        witnesses.push(copy_bytes(&t.witnesses[i]));
    }
    let r = TxBody {
        version: t.version,
        cell_deps,
        header_deps,
        inputs,
        outputs,
        outputs_data,
        witnesses,
    };
    proof {
        assert(r@.cell_deps =~= t@.cell_deps);
        assert(r@.header_deps =~= t@.header_deps);
        assert(r@.inputs =~= t@.inputs);
        assert(r@.outputs =~= t@.outputs);
        assert(r@.outputs_data =~= t@.outputs_data);
        assert(r@.witnesses =~= t@.witnesses);
        assert(r@ =~= t@);
    }
    r
}

/// Builds the mock transaction of a resolved transaction.
///
/// Every resolved input keeps its original `since` and previous out-point;
/// direct cell dependencies and dependency groups are concatenated into one
/// sequence, each under its kind tag; header dependencies are rendered in
/// the body's declared order from the supplied headers; the body itself is
/// carried over unchanged. The dump fails, with a lookup failure, exactly
/// when a resolved cell has no materialized data or a declared header hash
/// has no supplied header.
pub fn dump_tx(rtx: &ResolvedTx, header_deps: &Vec<Header>) -> (r: Result<MockTx, Error>)
    requires
        rtx@.wf(),
    ensures
        r is Ok <==> all_data_present(rtx@) && headers_found(
            seq_view(header_deps@),
            rtx@.transaction.header_deps,
        ),
        r is Ok ==> r->Ok_0@ == mock_of(rtx@, seq_view(header_deps@)),
        r is Err ==> r->Err_0 == Error::LookupFailure,
{
    let ghost m = mock_of(rtx@, seq_view(header_deps@));
    let mut inputs: Vec<MockInput> = Vec::new();
    let n_in = rtx.resolved_inputs.len();
    for i in 0..n_in
        invariant
            rtx@.wf(),
            n_in == rtx.resolved_inputs@.len(),
            inputs@.len() == i,
            forall|j: int|
                0 <= j < i ==> (#[trigger] rtx.resolved_inputs@[j]@.data) is Some,
            forall|j: int|
                0 <= j < i ==> (#[trigger] inputs@[j])@ == mock_input_of(
                    rtx@.transaction.inputs[j],
                    rtx@.resolved_inputs[j],
                ),
    {
        let rc = &rtx.resolved_inputs[i];
        proof {
            assert(rtx@.resolved_inputs[i as int] == rtx.resolved_inputs@[i as int]@);
            assert(rtx@.transaction.inputs[i as int] == rtx.transaction.inputs@[i as int]@);
        }
        let data = match &rc.data {
            Some(d) => copy_bytes(d),
            None => {
                assert(rtx@.resolved_inputs[i as int].data is None);
                assert(!cells_data_present(rtx@.resolved_inputs));
                return Err(Error::LookupFailure);
            },
        };
        inputs.push(
            MockInput {
                input: copy_cell_input(&rtx.transaction.inputs[i]),
                output: copy_cell_output(&rc.output),
                data,
            },
        );
        assert(inputs@[i as int]@ =~= mock_input_of(
            rtx@.transaction.inputs[i as int],
            rtx@.resolved_inputs[i as int],
        ));
    }
    let mut cell_deps: Vec<MockCellDep> = Vec::new();
    let n_cd = rtx.resolved_cell_deps.len();
    for i in 0..n_cd
        invariant
            n_cd == rtx.resolved_cell_deps@.len(),
            cell_deps@.len() == i,
            forall|j: int|
                0 <= j < i ==> (#[trigger] rtx.resolved_cell_deps@[j]@.data) is Some,
            forall|j: int|
                0 <= j < i ==> (#[trigger] cell_deps@[j])@ == mock_dep_of(
                    rtx@.resolved_cell_deps[j],
                    DepKind::Code,
                ),
    {
        proof {
            assert(rtx@.resolved_cell_deps[i as int] == rtx.resolved_cell_deps@[i as int]@);
        }
        match build_mock_dep(&rtx.resolved_cell_deps[i], DepKind::Code) {
            Ok(d) => cell_deps.push(d),
            Err(e) => {
                assert(rtx@.resolved_cell_deps[i as int].data is None);
                assert(!cells_data_present(rtx@.resolved_cell_deps));
                return Err(e);
            },
        }
    }
    let n_dg = rtx.resolved_dep_groups.len();
    for i in 0..n_dg
        invariant
            n_cd == rtx.resolved_cell_deps@.len(),
            n_dg == rtx.resolved_dep_groups@.len(),
            cell_deps@.len() == n_cd + i,
            forall|j: int|
                0 <= j < n_cd ==> (#[trigger] rtx.resolved_cell_deps@[j]@.data) is Some,
            forall|j: int|
                0 <= j < i ==> (#[trigger] rtx.resolved_dep_groups@[j]@.data) is Some,
            forall|j: int|
                0 <= j < n_cd ==> (#[trigger] cell_deps@[j])@ == mock_dep_of(
                    rtx@.resolved_cell_deps[j],
                    DepKind::Code,
                ),
            forall|j: int|
                n_cd <= j < n_cd + i ==> (#[trigger] cell_deps@[j])@ == mock_dep_of(
                    rtx@.resolved_dep_groups[j - n_cd],
                    DepKind::DepGroup,
                ),
    {
        proof {
            assert(rtx@.resolved_dep_groups[i as int] == rtx.resolved_dep_groups@[i as int]@);
        }
        match build_mock_dep(&rtx.resolved_dep_groups[i], DepKind::DepGroup) {
            Ok(d) => cell_deps.push(d),
            Err(e) => {
                assert(rtx@.resolved_dep_groups[i as int].data is None);
                assert(!cells_data_present(rtx@.resolved_dep_groups));
                return Err(e);
            },
        }
    }
    let mut mock_headers: Vec<Header> = Vec::new();
    let n_hd = rtx.transaction.header_deps.len();
    for i in 0..n_hd
        invariant
            n_hd == rtx.transaction.header_deps@.len(),
            mock_headers@.len() == i,
            forall|j: int|
                0 <= j < i ==> find_header(
                    seq_view(header_deps@),
                    #[trigger] rtx@.transaction.header_deps[j],
                ) is Some,
            forall|j: int|
                0 <= j < i ==> (#[trigger] mock_headers@[j])@ == find_header(
                    seq_view(header_deps@),
                    rtx@.transaction.header_deps[j],
                )->0,
    {
        proof {
            assert(rtx@.transaction.header_deps[i as int] == rtx.transaction.header_deps@[i as int]@);
        }
        match find_header_idx(header_deps, &rtx.transaction.header_deps[i]) {
            Some(k) => {
                mock_headers.push(copy_header(&header_deps[k]));
                assert(mock_headers@[i as int]@ == find_header(
                    seq_view(header_deps@),
                    rtx@.transaction.header_deps[i as int],
                )->0);
            },
            None => {
                assert(find_header(
                    seq_view(header_deps@),
                    rtx@.transaction.header_deps[i as int],
                ) is None);
                assert(!headers_found(seq_view(header_deps@), rtx@.transaction.header_deps));
                return Err(Error::LookupFailure);
            },
        }
    }
    let tx = copy_tx_body(&rtx.transaction);
    let r = MockTx {
        mock_info: MockInfo { inputs, cell_deps, header_deps: mock_headers },
        tx,
    };
    proof {
        assert(r@.mock_info.inputs =~= m.mock_info.inputs);
        assert(r@.mock_info.cell_deps =~= m.mock_info.cell_deps);
        assert(r@.mock_info.header_deps =~= m.mock_info.header_deps);
        assert(r@ =~= m);
    }
    Ok(r)
}

} // verus!
