//! Dumps a resolved CKB transaction into a self-contained, replayable
//! mock-transaction document, and synthesizes the debugger command line
//! that replays one script-verification group from that document.

use vstd::prelude::*;

pub mod builder;
pub mod command;
pub mod digest;
pub mod model;
pub mod render;
pub mod subst;
pub mod text;

use crate::builder::{all_data_present, dump_tx, headers_found, mock_of};
use crate::model::{seq_view, Header, HeaderV, MockTxV, ResolvedTx, ResolvedTxV};
use crate::render::{
    dep_leaf, document_json, render_dep_leaves, render_document, tx_prefixed_wf,
};
use crate::subst::{first_match, subst_leaf, substitute_leaves, BinEntry, BinEntryV};

verus! {

/// The failure kinds of the dump pipeline. Every fallible function of this
/// crate states in its contract exactly which inputs produce which kind.
#[derive(Debug, Clone, Copy, PartialEq, Eq, Structural)]
pub enum Error {
    /// A referenced record was not supplied: a declared header-dependency
    /// hash with no matching header, a resolved cell without its data
    /// buffer, or a verification-group index out of range.
    LookupFailure,
    /// A malformed primitive field: a length-prefixed buffer shorter than
    /// its prefix demands, or an unrecognized script hash-type discriminant.
    EncodingViolation,
    /// A filesystem-level failure surfaced by the caller, or an empty
    /// binary under test.
    IOFailure,
    /// In the hash-addressed command form, the selected group's script code
    /// hash does not match the content hash of the binary under test.
    ConsistencyFailure,
}

/// The dependency-data leaves of the document: for each cell dependency,
/// first the reference-binary rule, then placeholder substitution.
pub open spec fn document_leaves(
    m: MockTxV,
    ref_hash: Option<Seq<u8>>,
    entries: Seq<BinEntryV>,
) -> Seq<Seq<char>> {
    Seq::new(
        m.mock_info.cell_deps.len(),
        |i: int| subst_leaf(dep_leaf(m.mock_info.cell_deps[i].data, ref_hash), entries),
    )
}

/// The document a resolved transaction dumps to, given the supplied
/// headers, the optional reference-binary hash, and the candidate binaries
/// of the substitution scan. A function of those four values alone.
pub open spec fn document_of(
    rtx: ResolvedTxV,
    headers: Seq<HeaderV>,
    ref_hash: Option<Seq<u8>>,
    entries: Seq<BinEntryV>,
) -> Seq<char> {
    document_json(
        mock_of(rtx, headers),
        document_leaves(mock_of(rtx, headers), ref_hash, entries),
    )
}

/// Round-trip determinism: two documents dumped from the same resolved
/// transaction, the same headers, the same reference hash and the same
/// candidate binaries are identical, character for character.
pub proof fn lemma_round_trip_determinism(
    rtx: ResolvedTxV,
    headers: Seq<HeaderV>,
    ref_hash: Option<Seq<u8>>,
    entries: Seq<BinEntryV>,
    d1: Seq<char>,
    d2: Seq<char>,
)
    requires
        d1 == document_of(rtx, headers, ref_hash, entries),
        d2 == document_of(rtx, headers, ref_hash, entries),
    ensures
        d1 == d2,
{
}

/// Dumps a resolved transaction to its document text: builds the mock
/// transaction, renders the dependency-data leaves under the
/// reference-binary rule, substitutes placeholders for the supplied
/// candidate binaries, and renders the document.
///
/// The dump succeeds exactly when every resolved cell carries its data,
/// every declared header hash has a supplied header, and every
/// length-prefixed buffer of the body is well formed; the first two
/// failures are lookup failures, the last an encoding violation.
pub fn dump_tx_json(
    rtx: &ResolvedTx,
    header_deps: &Vec<Header>,
    ref_hash: &Option<Vec<u8>>,
    bin_entries: &Option<Vec<BinEntry>>,
) -> (r: Result<String, Error>)
    requires
        rtx@.wf(),
    ensures
        r is Ok <==> all_data_present(rtx@) && headers_found(
            seq_view(header_deps@),
            rtx@.transaction.header_deps,
        ) && tx_prefixed_wf(rtx@.transaction),
        !(all_data_present(rtx@) && headers_found(
            seq_view(header_deps@),
            rtx@.transaction.header_deps,
        )) ==> r == Err::<String, Error>(Error::LookupFailure),
        all_data_present(rtx@) && headers_found(
            seq_view(header_deps@),
            rtx@.transaction.header_deps,
        ) && !tx_prefixed_wf(rtx@.transaction) ==> r == Err::<String, Error>(
            Error::EncodingViolation,
        ),
        r is Ok ==> r->Ok_0@ == document_of(
            rtx@,
            seq_view(header_deps@),
            match ref_hash {
                Some(h) => Some(h@),
                None => None,
            },
            match bin_entries {
                Some(v) => seq_view(v@),
                None => Seq::empty(),
            },
        ),
{
    let m = match dump_tx(rtx, header_deps) {
        Ok(m) => m,
        Err(e) => {
            return Err(e);
        },
    };
    let ghost mv = m@;
    let ghost ref_v: Option<Seq<u8>> = match ref_hash {
        Some(h) => Some(h@),
        None => None,
    };
    let ghost entries_v: Seq<BinEntryV> = match bin_entries {
        Some(v) => seq_view(v@),
        None => Seq::empty(),
    };
    let mut leaves = render_dep_leaves(&m.mock_info.cell_deps, ref_hash);
    match bin_entries {
        Some(entries) => {
            substitute_leaves(&mut leaves, entries);
        },
        None => {
            proof {
                assert forall|i: int| 0 <= i < leaves@.len() implies subst_leaf(
                    (#[trigger] leaves@[i])@,
                    entries_v,
                ) == leaves@[i]@ by {
                    assert(first_match(entries_v, crate::subst::leaf_decoded_len(leaves@[i]@))
                        is None);
                }
            }
        },
    }
    proof {
        assert(seq_view(leaves@) =~= document_leaves(mv, ref_v, entries_v));
    }
    match render_document(&m, &leaves) {
        Ok(doc) => Ok(doc),
        Err(e) => Err(e),
    }
}

} // verus!
