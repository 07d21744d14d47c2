//! The document renderer: produces the mock-transaction document text from
//! the model, one record at a time, in the schema's field order, with every
//! primitive field in its canonical form.

use crate::digest::{data_digest, data_digest_of};
use crate::model::{
    dep_kind_tag, hash_type_tag, seq_view, CellDep, CellDepV, CellInput, CellInputV, CellOutput,
    CellOutputV, Header, HeaderV, MockCellDep, MockCellDepV, MockInput, MockInputV, MockTx,
    MockTxV, Script, ScriptV, TxBody, TxBodyV,
};
use crate::text::{
    escaped, hex_field, payload_of, prefixed_wf, push_escaped, push_hex_field, push_uint_field,
    strip_length_prefix, uint_field,
};
use crate::Error;
use vstd::prelude::*;
use vstd::string::StringExecFns;

verus! {

/// A piece of text between double quotes; the contents must already be in
/// their escaped form.
pub open spec fn quoted(s: Seq<char>) -> Seq<char> {
    "\""@ + s + "\""@
}

/// The JSON record of a script: code hash, hash-type tag, arguments.
pub open spec fn script_json(s: ScriptV) -> Seq<char> {
    "{\"code_hash\":"@ + quoted(hex_field(s.code_hash)) + ",\"hash_type\":"@ + quoted(
        hash_type_tag(s.hash_type),
    ) + ",\"args\":"@ + quoted(hex_field(s.args)) + "}"@
}

/// The JSON of an optional type script: the record, or the null literal.
pub open spec fn opt_script_json(t: Option<ScriptV>) -> Seq<char> {
    match t {
        Some(s) => script_json(s),
        None => "null"@,
    }
}

/// The JSON record of an out-point: transaction hash and output index.
pub open spec fn out_point_json(o: crate::model::OutPointV) -> Seq<char> {
    "{\"tx_hash\":"@ + quoted(hex_field(o.tx_hash)) + ",\"index\":"@ + quoted(
        uint_field(o.index as nat),
    ) + "}"@
}

/// The JSON record of an output descriptor: capacity, lock, type.
pub open spec fn cell_output_json(c: CellOutputV) -> Seq<char> {
    "{\"capacity\":"@ + quoted(uint_field(c.capacity as nat)) + ",\"lock\":"@ + script_json(c.lock)
        + ",\"type\":"@ + opt_script_json(c.type_) + "}"@
}

/// The JSON record of an input reference: since, previous out-point.
pub open spec fn cell_input_json(i: CellInputV) -> Seq<char> {
    "{\"since\":"@ + quoted(uint_field(i.since as nat)) + ",\"previous_output\":"@ + out_point_json(
        i.previous_output,
    ) + "}"@
}

/// The JSON record of a declared cell dependency: out-point and kind tag.
pub open spec fn cell_dep_json(d: CellDepV) -> Seq<char> {
    "{\"out_point\":"@ + out_point_json(d.out_point) + ",\"dep_type\":"@ + quoted(
        dep_kind_tag(d.dep_type),
    ) + "}"@
}

/// The JSON record of a full header.
pub open spec fn header_json(h: HeaderV) -> Seq<char> {
    "{\"hash\":"@ + quoted(hex_field(h.hash)) + ",\"version\":"@ + quoted(
        uint_field(h.version as nat),
    ) + ",\"compact_target\":"@ + quoted(uint_field(h.compact_target as nat)) + ",\"timestamp\":"@
        + quoted(uint_field(h.timestamp as nat)) + ",\"number\":"@ + quoted(
        uint_field(h.number as nat),
    ) + ",\"epoch\":"@ + quoted(uint_field(h.epoch as nat)) + ",\"parent_hash\":"@ + quoted(
        hex_field(h.parent_hash),
    ) + ",\"transactions_root\":"@ + quoted(hex_field(h.transactions_root)) + ",\"proposals_hash\":"@
        + quoted(hex_field(h.proposals_hash)) + ",\"extra_hash\":"@ + quoted(hex_field(h.extra_hash))
        + ",\"dao\":"@ + quoted(hex_field(h.dao)) + ",\"nonce\":"@ + quoted(
        uint_field(h.nonce as nat),
    ) + "}"@
}

/// The JSON record of one rendered input: the body's reference, the
/// consumed output, and that cell's data.
pub open spec fn mock_input_json(m: MockInputV) -> Seq<char> {
    "{\"input\":"@ + cell_input_json(m.input) + ",\"output\":"@ + cell_output_json(m.output)
        + ",\"data\":"@ + quoted(hex_field(m.data)) + "}"@
}

/// The JSON record of one rendered cell dependency, with its data leaf
/// supplied separately: the leaf may be the plain rendering of the data,
/// the empty buffer when the data is the reference binary, or a path
/// placeholder left by substitution.
pub open spec fn mock_dep_json(d: MockCellDepV, leaf: Seq<char>) -> Seq<char> {
    "{\"cell_dep\":"@ + cell_dep_json(d.cell_dep) + ",\"output\":"@ + cell_output_json(d.output)
        + ",\"data\":"@ + quoted(escaped(leaf)) + "}"@
}

/// The items of a JSON array, separated by commas.
pub open spec fn joined(items: Seq<Seq<char>>) -> Seq<char>
    decreases items.len(),
{
    if items.len() == 0 {
        Seq::empty()
    } else if items.len() == 1 {
        items[0]
    } else {
        joined(items.drop_last()) + ","@ + items.last()
    }
}

/// A whole JSON array.
pub open spec fn array_json(items: Seq<Seq<char>>) -> Seq<char> {
    "["@ + joined(items) + "]"@
}

/// Appending one item extends the joined run by a comma and the item.
proof fn lemma_joined_snoc(items: Seq<Seq<char>>, i: int)
    requires
        0 <= i < items.len(),
    ensures
        joined(items.subrange(0, i + 1)) == if i == 0 {
            items[0]
        } else {
            joined(items.subrange(0, i)) + ","@ + items[i]
        },
{
    let t = items.subrange(0, i + 1);
    assert(t.drop_last() =~= items.subrange(0, i));
    assert(t.last() == items[i]);
}

/// What the data leaf of one cell dependency renders to before
/// substitution: the literal empty buffer when the dependency's data is
/// the caller's reference binary (the debugger loads that binary by path,
/// so the document omits it), and the full hexadecimal rendering otherwise.
pub open spec fn dep_leaf(data: Seq<u8>, ref_hash: Option<Seq<u8>>) -> Seq<char> {
    if ref_hash is Some && data_digest_of(data) == ref_hash->0 {
        "0x"@
    } else {
        hex_field(data)
    }
}

/// The JSON of the `tx` section: the transaction body as it will be
/// replayed, with the length prefixes of output data and witnesses
/// stripped.
pub open spec fn tx_json(t: TxBodyV) -> Seq<char> {
    "{\"version\":"@ + quoted(uint_field(t.version as nat)) + ",\"cell_deps\":"@ + array_json(
        t.cell_deps.map_values(|d: CellDepV| cell_dep_json(d)),
    ) + ",\"header_deps\":"@ + array_json(
        t.header_deps.map_values(|b: Seq<u8>| quoted(hex_field(b))),
    ) + ",\"inputs\":"@ + array_json(t.inputs.map_values(|i: CellInputV| cell_input_json(i)))
        + ",\"outputs\":"@ + array_json(t.outputs.map_values(|c: CellOutputV| cell_output_json(c)))
        + ",\"outputs_data\":"@ + array_json(
        t.outputs_data.map_values(|b: Seq<u8>| quoted(hex_field(payload_of(b)))),
    ) + ",\"witnesses\":"@ + array_json(
        t.witnesses.map_values(|b: Seq<u8>| quoted(hex_field(payload_of(b)))),
    ) + "}"@
}

/// The JSON of the `mock_info` section, with the dependency-data leaves
/// supplied by the caller.
pub open spec fn mock_info_json(m: crate::model::MockInfoV, leaves: Seq<Seq<char>>) -> Seq<char> {
    "{\"inputs\":"@ + array_json(m.inputs.map_values(|x: MockInputV| mock_input_json(x)))
        + ",\"cell_deps\":"@ + array_json(
        Seq::new(m.cell_deps.len(), |i: int| mock_dep_json(m.cell_deps[i], leaves[i])),
    ) + ",\"header_deps\":"@ + array_json(m.header_deps.map_values(|h: HeaderV| header_json(h)))
        + "}"@
}

/// The whole document.
pub open spec fn document_json(m: MockTxV, leaves: Seq<Seq<char>>) -> Seq<char> {
    "{\"mock_info\":"@ + mock_info_json(m.mock_info, leaves) + ",\"tx\":"@ + tx_json(m.tx) + "}"@
}

/// Whether every length-prefixed buffer of the body is well formed, so
/// that its prefix can be stripped.
pub open spec fn tx_prefixed_wf(t: TxBodyV) -> bool {
    &&& forall|i: int| 0 <= i < t.outputs_data.len() ==> prefixed_wf(#[trigger] t.outputs_data[i])
    &&& forall|i: int| 0 <= i < t.witnesses.len() ==> prefixed_wf(#[trigger] t.witnesses[i])
}

/// Appends a quoted byte-buffer field.
fn push_quoted_hex(out: &mut String, data: &Vec<u8>)
    ensures
        final(out)@ == old(out)@ + quoted(hex_field(data@)),
{
    out.append("\"");
    push_hex_field(out, data.as_slice());
    out.append("\"");
    assert(final(out)@ =~= old(out)@ + quoted(hex_field(data@)));
}

/// Appends a quoted unsigned-integer field.
fn push_quoted_uint(out: &mut String, n: u128)
    ensures
        final(out)@ == old(out)@ + quoted(uint_field(n as nat)),
{
    out.append("\"");
    push_uint_field(out, n);
    out.append("\"");
    assert(final(out)@ =~= old(out)@ + quoted(uint_field(n as nat)));
}

/// Appends the JSON record of a script.
fn push_script_json(out: &mut String, s: &Script)
    ensures
        final(out)@ == old(out)@ + script_json(s@),
{
    out.append("{\"code_hash\":");
    push_quoted_hex(out, &s.code_hash);
    out.append(",\"hash_type\":");
    out.append("\"");
    match s.hash_type {
        crate::model::HashType::Data => out.append("data"),
        crate::model::HashType::Type => out.append("type"),
        crate::model::HashType::Data1 => out.append("data1"),
    }
    out.append("\"");
    out.append(",\"args\":");
    push_quoted_hex(out, &s.args);
    out.append("}");
    assert(final(out)@ =~= old(out)@ + script_json(s@));
}

/// Appends the JSON of an optional type script.
fn push_opt_script_json(out: &mut String, t: &Option<Script>)
    ensures
        final(out)@ == old(out)@ + opt_script_json(
            match t {
                Some(s) => Some(s@),
                None => None,
            },
        ),
{
    match t {
        Some(s) => push_script_json(out, s),
        None => out.append("null"),
    }
}

/// Appends the JSON record of an out-point.
fn push_out_point_json(out: &mut String, o: &crate::model::OutPoint)
    ensures
        final(out)@ == old(out)@ + out_point_json(o@),
{
    out.append("{\"tx_hash\":");
    push_quoted_hex(out, &o.tx_hash);
    out.append(",\"index\":");
    push_quoted_uint(out, o.index as u128);
    out.append("}");
    assert(final(out)@ =~= old(out)@ + out_point_json(o@));
}

/// Appends the JSON record of an output descriptor.
fn push_cell_output_json(out: &mut String, c: &CellOutput)
    ensures
        final(out)@ == old(out)@ + cell_output_json(c@),
{
    out.append("{\"capacity\":");
    push_quoted_uint(out, c.capacity as u128);
    out.append(",\"lock\":");
    push_script_json(out, &c.lock);
    out.append(",\"type\":");
    push_opt_script_json(out, &c.type_);
    out.append("}");
    assert(final(out)@ =~= old(out)@ + cell_output_json(c@));
}

/// Appends the JSON record of an input reference.
fn push_cell_input_json(out: &mut String, i: &CellInput)
    ensures
        final(out)@ == old(out)@ + cell_input_json(i@),
{
    out.append("{\"since\":");
    push_quoted_uint(out, i.since as u128);
    out.append(",\"previous_output\":");
    push_out_point_json(out, &i.previous_output);
    out.append("}");
    assert(final(out)@ =~= old(out)@ + cell_input_json(i@));
}

/// Appends the JSON record of a declared cell dependency.
fn push_cell_dep_json(out: &mut String, d: &CellDep)
    ensures
        final(out)@ == old(out)@ + cell_dep_json(d@),
{
    out.append("{\"out_point\":");
    push_out_point_json(out, &d.out_point);
    out.append(",\"dep_type\":");
    out.append("\"");
    match d.dep_type {
        crate::model::DepKind::Code => out.append("code"),
        crate::model::DepKind::DepGroup => out.append("dep_group"),
    }
    out.append("\"");
    out.append("}");
    assert(final(out)@ =~= old(out)@ + cell_dep_json(d@));
}

/// Appends the JSON record of a full header.
#[verifier::rlimit(60)]
fn push_header_json(out: &mut String, h: &Header)
    ensures
        final(out)@ == old(out)@ + header_json(h@),
{
    out.append("{\"hash\":");
    push_quoted_hex(out, &h.hash);
    out.append(",\"version\":");
    push_quoted_uint(out, h.version as u128);
    out.append(",\"compact_target\":");
    push_quoted_uint(out, h.compact_target as u128);
    out.append(",\"timestamp\":");
    push_quoted_uint(out, h.timestamp as u128);
    out.append(",\"number\":");
    push_quoted_uint(out, h.number as u128);
    out.append(",\"epoch\":");
    push_quoted_uint(out, h.epoch as u128);
    out.append(",\"parent_hash\":");
    push_quoted_hex(out, &h.parent_hash);
    out.append(",\"transactions_root\":");
    push_quoted_hex(out, &h.transactions_root);
    out.append(",\"proposals_hash\":");
    push_quoted_hex(out, &h.proposals_hash);
    out.append(",\"extra_hash\":");
    push_quoted_hex(out, &h.extra_hash);
    out.append(",\"dao\":");
    push_quoted_hex(out, &h.dao);
    out.append(",\"nonce\":");
    push_quoted_uint(out, h.nonce);
    out.append("}");
    assert(final(out)@ =~= old(out)@ + header_json(h@));
}

/// Appends the JSON record of one rendered input.
fn push_mock_input_json(out: &mut String, m: &MockInput)
    ensures
        final(out)@ == old(out)@ + mock_input_json(m@),
{
    out.append("{\"input\":");
    push_cell_input_json(out, &m.input);
    out.append(",\"output\":");
    push_cell_output_json(out, &m.output);
    out.append(",\"data\":");
    push_quoted_hex(out, &m.data);
    out.append("}");
    assert(final(out)@ =~= old(out)@ + mock_input_json(m@));
}

/// Appends the JSON record of one rendered cell dependency, with the
/// supplied data leaf escaped into place.
fn push_mock_dep_json(out: &mut String, d: &MockCellDep, leaf: &String)
    ensures
        final(out)@ == old(out)@ + mock_dep_json(d@, leaf@),
{
    out.append("{\"cell_dep\":");
    push_cell_dep_json(out, &d.cell_dep);
    out.append(",\"output\":");
    push_cell_output_json(out, &d.output);
    out.append(",\"data\":");
    out.append("\"");
    push_escaped(out, leaf.as_str());
    out.append("\"");
    out.append("}");
    assert(final(out)@ =~= old(out)@ + mock_dep_json(d@, leaf@));
}

/// Appends the array of rendered inputs.
#[verifier::rlimit(60)]
fn push_mock_inputs_array(out: &mut String, v: &Vec<MockInput>)
    ensures
        final(out)@ == old(out)@ + array_json(
            seq_view(v@).map_values(|x: MockInputV| mock_input_json(x)),
        ),
{
    let ghost items = seq_view(v@).map_values(|x: MockInputV| mock_input_json(x));
    let ghost prefix = out@;
    out.append("[");
    let n = v.len();
    assert(items.subrange(0, 0) =~= Seq::<Seq<char>>::empty());
    for i in 0..n
        invariant
            n == v@.len(),
            items == seq_view(v@).map_values(|x: MockInputV| mock_input_json(x)),
            items.len() == n,
            out@ == prefix + "["@ + joined(items.subrange(0, i as int)),
    {
        if i > 0 {
            out.append(",");
        }
        push_mock_input_json(out, &v[i]);
        proof {
            assert(items[i as int] == mock_input_json(v@[i as int]@));
            lemma_joined_snoc(items, i as int);
            assert(out@ =~= prefix + "["@ + joined(items.subrange(0, i + 1)));
        }
    }
    assert(items.subrange(0, n as int) =~= items);
    out.append("]");
    assert(final(out)@ =~= prefix + array_json(items));
}

/// Appends the array of rendered cell dependencies, one supplied leaf per
/// dependency.
#[verifier::rlimit(60)]
fn push_mock_deps_array(out: &mut String, v: &Vec<MockCellDep>, leaves: &Vec<String>)
    requires
        leaves@.len() == v@.len(),
    ensures
        final(out)@ == old(out)@ + array_json(
            Seq::new(v@.len() as nat, |i: int| mock_dep_json(v@[i]@, leaves@[i]@)),
        ),
{
    let ghost items = Seq::new(v@.len() as nat, |i: int| mock_dep_json(v@[i]@, leaves@[i]@));
    let ghost prefix = out@;
    out.append("[");
    let n = v.len();
    assert(items.subrange(0, 0) =~= Seq::<Seq<char>>::empty());
    for i in 0..n
        invariant
            n == v@.len() == leaves@.len(),
            items == Seq::new(v@.len() as nat, |i: int| mock_dep_json(v@[i]@, leaves@[i]@)),
            items.len() == n,
            out@ == prefix + "["@ + joined(items.subrange(0, i as int)),
    {
        if i > 0 {
            out.append(",");
        }
        push_mock_dep_json(out, &v[i], &leaves[i]);
        proof {
            lemma_joined_snoc(items, i as int);
            assert(out@ =~= prefix + "["@ + joined(items.subrange(0, i + 1)));
        }
    }
    assert(items.subrange(0, n as int) =~= items);
    out.append("]");
    assert(final(out)@ =~= prefix + array_json(items));
}

/// Appends the array of full header records.
#[verifier::rlimit(60)]
fn push_headers_array(out: &mut String, v: &Vec<Header>)
    ensures
        final(out)@ == old(out)@ + array_json(
            seq_view(v@).map_values(|h: HeaderV| header_json(h)),
        ),
{
    let ghost items = seq_view(v@).map_values(|h: HeaderV| header_json(h));
    let ghost prefix = out@;
    out.append("[");
    let n = v.len();
    assert(items.subrange(0, 0) =~= Seq::<Seq<char>>::empty());
    for i in 0..n
        invariant
            n == v@.len(),
            items == seq_view(v@).map_values(|h: HeaderV| header_json(h)),
            items.len() == n,
            out@ == prefix + "["@ + joined(items.subrange(0, i as int)),
    {
        if i > 0 {
            out.append(",");
        }
        push_header_json(out, &v[i]);
        proof {
            assert(items[i as int] == header_json(v@[i as int]@));
            lemma_joined_snoc(items, i as int);
            assert(out@ =~= prefix + "["@ + joined(items.subrange(0, i + 1)));
        }
    }
    assert(items.subrange(0, n as int) =~= items);
    out.append("]");
    assert(final(out)@ =~= prefix + array_json(items));
}

/// Appends the array of declared cell dependencies of the body.
#[verifier::rlimit(60)]
fn push_tx_deps_array(out: &mut String, v: &Vec<CellDep>)
    ensures
        final(out)@ == old(out)@ + array_json(
            seq_view(v@).map_values(|d: CellDepV| cell_dep_json(d)),
        ),
{
    let ghost items = seq_view(v@).map_values(|d: CellDepV| cell_dep_json(d));
    let ghost prefix = out@;
    out.append("[");
    let n = v.len();
    assert(items.subrange(0, 0) =~= Seq::<Seq<char>>::empty());
    for i in 0..n
        invariant
            n == v@.len(),
            items == seq_view(v@).map_values(|d: CellDepV| cell_dep_json(d)),
            items.len() == n,
            out@ == prefix + "["@ + joined(items.subrange(0, i as int)),
    {
        if i > 0 {
            out.append(",");
        }
        push_cell_dep_json(out, &v[i]);
        proof {
            assert(items[i as int] == cell_dep_json(v@[i as int]@));
            lemma_joined_snoc(items, i as int);
            assert(out@ =~= prefix + "["@ + joined(items.subrange(0, i + 1)));
        }
    }
    assert(items.subrange(0, n as int) =~= items);
    out.append("]");
    assert(final(out)@ =~= prefix + array_json(items));
}

/// Appends the array of quoted header-dependency hashes of the body.
fn push_hashes_array(out: &mut String, v: &Vec<Vec<u8>>)
    ensures
        final(out)@ == old(out)@ + array_json(
            v@.map_values(|b: Vec<u8>| b@).map_values(|b: Seq<u8>| quoted(hex_field(b))),
        ),
{
    let ghost items = v@.map_values(|b: Vec<u8>| b@).map_values(|b: Seq<u8>| quoted(hex_field(b)));
    let ghost prefix = out@;
    out.append("[");
    let n = v.len();
    assert(items.subrange(0, 0) =~= Seq::<Seq<char>>::empty());
    for i in 0..n
        invariant
            n == v@.len(),
            items == v@.map_values(|b: Vec<u8>| b@).map_values(|b: Seq<u8>| quoted(hex_field(b))),
            items.len() == n,
            out@ == prefix + "["@ + joined(items.subrange(0, i as int)),
    {
        if i > 0 {
            out.append(",");
        }
        push_quoted_hex(out, &v[i]);
        proof {
            assert(items[i as int] == quoted(hex_field(v@[i as int]@)));
            lemma_joined_snoc(items, i as int);
            assert(out@ =~= prefix + "["@ + joined(items.subrange(0, i + 1)));
        }
    }
    assert(items.subrange(0, n as int) =~= items);
    out.append("]");
    assert(final(out)@ =~= prefix + array_json(items));
}

/// Appends the array of input references of the body.
#[verifier::rlimit(60)]
fn push_tx_inputs_array(out: &mut String, v: &Vec<CellInput>)
    ensures
        final(out)@ == old(out)@ + array_json(
            seq_view(v@).map_values(|i: CellInputV| cell_input_json(i)),
        ),
{
    let ghost items = seq_view(v@).map_values(|i: CellInputV| cell_input_json(i));
    let ghost prefix = out@;
    out.append("[");
    let n = v.len();
    assert(items.subrange(0, 0) =~= Seq::<Seq<char>>::empty());
    for i in 0..n
        invariant
            n == v@.len(),
            items == seq_view(v@).map_values(|i: CellInputV| cell_input_json(i)),
            items.len() == n,
            out@ == prefix + "["@ + joined(items.subrange(0, i as int)),
    {
        if i > 0 {
            out.append(",");
        }
        push_cell_input_json(out, &v[i]);
        proof {
            assert(items[i as int] == cell_input_json(v@[i as int]@));
            lemma_joined_snoc(items, i as int);
            assert(out@ =~= prefix + "["@ + joined(items.subrange(0, i + 1)));
        }
    }
    assert(items.subrange(0, n as int) =~= items);
    out.append("]");
    assert(final(out)@ =~= prefix + array_json(items));
}

/// Appends the array of output descriptors of the body.
#[verifier::rlimit(60)]
fn push_outputs_array(out: &mut String, v: &Vec<CellOutput>)
    ensures
        final(out)@ == old(out)@ + array_json(
            seq_view(v@).map_values(|c: CellOutputV| cell_output_json(c)),
        ),
{
    let ghost items = seq_view(v@).map_values(|c: CellOutputV| cell_output_json(c));
    let ghost prefix = out@;
    out.append("[");
    let n = v.len();
    assert(items.subrange(0, 0) =~= Seq::<Seq<char>>::empty());
    for i in 0..n
        invariant
            n == v@.len(),
            items == seq_view(v@).map_values(|c: CellOutputV| cell_output_json(c)),
            items.len() == n,
            out@ == prefix + "["@ + joined(items.subrange(0, i as int)),
    {
        if i > 0 {
            out.append(",");
        }
        push_cell_output_json(out, &v[i]);
        proof {
            assert(items[i as int] == cell_output_json(v@[i as int]@));
            lemma_joined_snoc(items, i as int);
            assert(out@ =~= prefix + "["@ + joined(items.subrange(0, i + 1)));
        }
    }
    assert(items.subrange(0, n as int) =~= items);
    out.append("]");
    assert(final(out)@ =~= prefix + array_json(items));
}

/// Appends the array of length-prefixed buffers of the body, each with its
/// prefix stripped and its payload quoted. A malformed buffer is a fatal
/// encoding violation.
#[verifier::rlimit(60)]
fn push_payloads_array(out: &mut String, v: &Vec<Vec<u8>>) -> (r: Result<(), Error>)
    ensures
        r is Ok <==> (forall|i: int| 0 <= i < v@.len() ==> prefixed_wf((#[trigger] v@[i])@)),
        r is Ok ==> final(out)@ == old(out)@ + array_json(
            v@.map_values(|b: Vec<u8>| b@).map_values(|b: Seq<u8>| quoted(hex_field(payload_of(b)))),
        ),
        r is Err ==> r->Err_0 == Error::EncodingViolation,
{
    let ghost items = v@.map_values(|b: Vec<u8>| b@).map_values(
        |b: Seq<u8>| quoted(hex_field(payload_of(b))),
    );
    let ghost prefix = out@;
    out.append("[");
    let n = v.len();
    assert(items.subrange(0, 0) =~= Seq::<Seq<char>>::empty());
    for i in 0..n
        invariant
            n == v@.len(),
            items == v@.map_values(|b: Vec<u8>| b@).map_values(
                |b: Seq<u8>| quoted(hex_field(payload_of(b))),
            ),
            items.len() == n,
            forall|j: int| 0 <= j < i ==> prefixed_wf((#[trigger] v@[j])@),
            out@ == prefix + "["@ + joined(items.subrange(0, i as int)),
    {
        if i > 0 {
            out.append(",");
        }
        let payload = match strip_length_prefix(&v[i]) {
            Ok(p) => p,
            Err(e) => {
                assert(!prefixed_wf(v@[i as int]@));
                return Err(e);
            },
        };
        push_quoted_hex(out, &payload);
        proof {
            assert(items[i as int] == quoted(hex_field(payload_of(v@[i as int]@))));
            lemma_joined_snoc(items, i as int);
            assert(out@ =~= prefix + "["@ + joined(items.subrange(0, i + 1)));
        }
    }
    assert(items.subrange(0, n as int) =~= items);
    out.append("]");
    assert(final(out)@ =~= prefix + array_json(items));
    Ok(())
}

/// The data leaf of one cell dependency before substitution: the empty
/// buffer when its data's digest is the reference binary's hash, the full
/// hexadecimal rendering otherwise.
pub fn render_dep_leaf(data: &Vec<u8>, ref_hash: &Option<Vec<u8>>) -> (r: String)
    ensures
        r@ == dep_leaf(
            data@,
            match ref_hash {
                Some(h) => Some(h@),
                None => None,
            },
        ),
{
    if let Some(h) = ref_hash {
        let digest = data_digest(data);
        if crate::builder::bytes_eq(&digest, h) {
            let r = String::from_str("0x");
            return r;
        }
    }
    let mut r = String::new();
    push_hex_field(&mut r, data.as_slice());
    assert(r@ =~= hex_field(data@));
    r
}

/// The data leaves of all cell dependencies, in order, before
/// substitution.
pub fn render_dep_leaves(deps: &Vec<MockCellDep>, ref_hash: &Option<Vec<u8>>) -> (r: Vec<String>)
    ensures
        r@.len() == deps@.len(),
        forall|i: int|
            0 <= i < deps@.len() ==> (#[trigger] r@[i])@ == dep_leaf(
                deps@[i]@.data,
                match ref_hash {
                    Some(h) => Some(h@),
                    None => None,
                },
            ),
{
    let mut r: Vec<String> = Vec::new();
    let n = deps.len();
    for i in 0..n
        invariant
            n == deps@.len(),
            r@.len() == i,
            forall|j: int|
                0 <= j < i ==> (#[trigger] r@[j])@ == dep_leaf(
                    deps@[j]@.data,
                    match ref_hash {
                        Some(h) => Some(h@),
                        None => None,
                    },
                ),
    {
        r.push(render_dep_leaf(&deps[i].data, ref_hash));
    }
    r
}

/// Appends the `mock_info` section, with the supplied dependency-data
/// leaves.
#[verifier::rlimit(100)]
fn push_mock_info_json(out: &mut String, info: &crate::model::MockInfo, leaves: &Vec<String>)
    requires
        leaves@.len() == info.cell_deps@.len(),
    ensures
        final(out)@ == old(out)@ + mock_info_json(info@, seq_view(leaves@)),
{
    out.append("{\"inputs\":");
    push_mock_inputs_array(out, &info.inputs);
    out.append(",\"cell_deps\":");
    push_mock_deps_array(out, &info.cell_deps, leaves);
    out.append(",\"header_deps\":");
    push_headers_array(out, &info.header_deps);
    out.append("}");
    proof {
        let a2 = Seq::new(info.cell_deps@.len() as nat, |i: int| mock_dep_json(
            info.cell_deps@[i]@,
            leaves@[i]@,
        ));
        assert(Seq::new(info@.cell_deps.len(), |i: int| mock_dep_json(
            info@.cell_deps[i],
            seq_view(leaves@)[i],
        )) =~= a2);
        let t1 = "{\"inputs\":"@;
        let a1 = seq_view(info.inputs@).map_values(|x: MockInputV| mock_input_json(x));
        let t2 = ",\"cell_deps\":"@;
        let t3 = ",\"header_deps\":"@;
        let a3 = seq_view(info.header_deps@).map_values(|h: HeaderV| header_json(h));
        let t4 = "}"@;
        assert(final(out)@ == old(out)@ + t1 + array_json(a1) + t2 + array_json(a2) + t3
            + array_json(a3) + t4);
        lemma_prepend_seven(
            old(out)@,
            t1,
            array_json(a1),
            t2,
            array_json(a2),
            t3,
            array_json(a3),
            t4,
        );
    }
}

/// Reassociates a prefix across a seven-piece concatenation.
proof fn lemma_prepend_seven(
    s: Seq<char>,
    x1: Seq<char>,
    x2: Seq<char>,
    x3: Seq<char>,
    x4: Seq<char>,
    x5: Seq<char>,
    x6: Seq<char>,
    x7: Seq<char>,
)
    ensures
        s + x1 + x2 + x3 + x4 + x5 + x6 + x7 == s + (x1 + x2 + x3 + x4 + x5 + x6 + x7),
{
    assert(s + x1 + x2 + x3 + x4 + x5 + x6 + x7 =~= s + (x1 + x2 + x3 + x4 + x5 + x6 + x7));
}

/// Appends the `tx` section. Fails, with an encoding violation, exactly
/// when a length-prefixed buffer of the body is malformed.
#[verifier::rlimit(100)]
fn push_tx_json(out: &mut String, t: &TxBody) -> (r: Result<(), Error>)
    ensures
        r is Ok <==> tx_prefixed_wf(t@),
        r is Ok ==> final(out)@ == old(out)@ + tx_json(t@),
        r is Err ==> r->Err_0 == Error::EncodingViolation,
{
    out.append("{\"version\":");
    push_quoted_uint(out, t.version as u128);
    out.append(",\"cell_deps\":");
    push_tx_deps_array(out, &t.cell_deps);
    out.append(",\"header_deps\":");
    push_hashes_array(out, &t.header_deps);
    out.append(",\"inputs\":");
    push_tx_inputs_array(out, &t.inputs);
    out.append(",\"outputs\":");
    push_outputs_array(out, &t.outputs);
    out.append(",\"outputs_data\":");
    proof {
        assert(t.outputs_data@.map_values(|b: Vec<u8>| b@) =~= t@.outputs_data);
        assert(t.witnesses@.map_values(|b: Vec<u8>| b@) =~= t@.witnesses);
    }
    if let Err(e) = push_payloads_array(out, &t.outputs_data) {
        proof {
            let j = choose|j: int|
                0 <= j < t.outputs_data@.len() && !prefixed_wf((#[trigger] t.outputs_data@[j])@);
            assert(t@.outputs_data[j] == t.outputs_data@[j]@);
            assert(!tx_prefixed_wf(t@));
        }
        return Err(e);
    }
    out.append(",\"witnesses\":");
    if let Err(e) = push_payloads_array(out, &t.witnesses) {
        proof {
            let j = choose|j: int|
                0 <= j < t.witnesses@.len() && !prefixed_wf((#[trigger] t.witnesses@[j])@);
            assert(t@.witnesses[j] == t.witnesses@[j]@);
            assert(!tx_prefixed_wf(t@));
        }
        return Err(e);
    }
    out.append("}");
    assert(tx_prefixed_wf(t@));
    assert(final(out)@ =~= old(out)@ + tx_json(t@));
    Ok(())
}

/// Renders the whole document from the mock transaction and the prepared
/// dependency-data leaves. Rendering fails, with an encoding violation,
/// exactly when a length-prefixed buffer of the body is malformed.
#[verifier::rlimit(60)]
pub fn render_document(m: &MockTx, leaves: &Vec<String>) -> (r: Result<String, Error>)
    requires
        leaves@.len() == m@.mock_info.cell_deps.len(),
    ensures
        r is Ok <==> tx_prefixed_wf(m@.tx),
        r is Ok ==> r->Ok_0@ == document_json(m@, seq_view(leaves@)),
        r is Err ==> r->Err_0 == Error::EncodingViolation,
{
    let mut out = String::new();
    out.append("{\"mock_info\":");
    push_mock_info_json(&mut out, &m.mock_info, leaves);
    out.append(",\"tx\":");
    if let Err(e) = push_tx_json(&mut out, &m.tx) {
        return Err(e);
    }
    out.append("}");
    assert(out@ =~= document_json(m@, seq_view(leaves@)));
    Ok(out)
}

} // verus!
