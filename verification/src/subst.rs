//! Binary placeholder substitution: replaces a rendered dependency-data
//! leaf with a path placeholder when an on-disk binary of a close-enough
//! size is found, so that a replay loads the live binary instead of a
//! frozen copy.

use crate::model::seq_view;
use crate::text::{hex_field, lemma_hex_field_len};
use vstd::arithmetic::div_mod::lemma_fundamental_div_mod;
use vstd::prelude::*;
use vstd::string::{StrSliceExecFns, StringExecFns};

verus! {

/// One candidate binary: its path and its size in bytes, as the caller
/// read them from the directory.
#[derive(Debug)]
pub struct BinEntry {
    pub path: String,
    pub size: u64,
}

#[verifier::ext_equal]
pub struct BinEntryV {
    pub path: Seq<char>,
    pub size: u64,
}

impl View for BinEntry {
    type V = BinEntryV;

    open spec fn view(&self) -> BinEntryV {
        BinEntryV { path: self.path@, size: self.size }
    }
}

/// The decoded byte length of a rendered data leaf: half its character
/// count, less the one byte's worth taken by the `0x` prefix.
pub open spec fn leaf_decoded_len(leaf: Seq<char>) -> int {
    leaf.len() / 2 - 1
}

/// A rendered byte buffer decodes back to its own byte length.
pub proof fn lemma_leaf_decoded_len(b: Seq<u8>)
    ensures
        leaf_decoded_len(hex_field(b)) == b.len(),
{
    lemma_hex_field_len(b);
}

/// The size heuristic: a leaf of decoded length `l` is probably a copy of
/// a binary of `size` bytes when it is at least that long and at most ten
/// percent longer. Dependency data is often padded relative to the source
/// binary, so an exact match would be too strict.
pub open spec fn size_matches(size: u64, l: int) -> bool {
    size <= l && 10 * l <= 11 * size
}

/// The upper half of the heuristic in its rounded-down form.
pub proof fn lemma_size_matches_floor(size: u64, l: int)
    ensures
        size_matches(size, l) <==> size <= l <= (11 * size) / 10,
{
    lemma_fundamental_div_mod(11 * size, 10);
}

/// The first candidate whose size the leaf's decoded length matches, in
/// the caller's directory order.
pub open spec fn first_match(entries: Seq<BinEntryV>, l: int) -> Option<BinEntryV>
    decreases entries.len(),
{
    if entries.len() == 0 {
        None
    } else if size_matches(entries[0].size, l) {
        Some(entries[0])
    } else {
        first_match(entries.drop_first(), l)
    }
}

/// The placeholder a matched leaf is rewritten to: a template reference
/// embedding the binary's path.
pub open spec fn placeholder(path: Seq<char>) -> Seq<char> {
    "0x{{ data "@ + path + " }}"@
}

/// What one rendered data leaf becomes: the placeholder of the first
/// matching candidate, or the leaf itself when no candidate matches.
pub open spec fn subst_leaf(leaf: Seq<char>, entries: Seq<BinEntryV>) -> Seq<char> {
    match first_match(entries, leaf_decoded_len(leaf)) {
        Some(e) => placeholder(e.path),
        None => leaf,
    }
}

/// A leaf is only ever rewritten within the heuristic's bound: if
/// substitution changed it, some candidate of size `s` satisfies
/// `s <= l <= floor(s * 11 / 10)` for the leaf's decoded length `l`.
pub proof fn lemma_substitution_bound(leaf: Seq<char>, entries: Seq<BinEntryV>)
    ensures
        subst_leaf(leaf, entries) != leaf ==> exists|i: int|
            0 <= i < entries.len() && (#[trigger] entries[i].size) <= leaf_decoded_len(leaf) <= (11
                * entries[i].size) / 10,
    decreases entries.len(),
{
    let l = leaf_decoded_len(leaf);
    if entries.len() > 0 {
        if size_matches(entries[0].size, l) {
            lemma_size_matches_floor(entries[0].size, l);
            assert(entries[0].size <= l <= (11 * entries[0].size) / 10);
        } else {
            lemma_substitution_bound(leaf, entries.drop_first());
            if subst_leaf(leaf, entries) != leaf {
                let rest = entries.drop_first();
                let i = choose|i: int|
                    0 <= i < rest.len() && (#[trigger] rest[i].size) <= l <= (11 * rest[i].size)
                        / 10;
                assert(entries[i + 1].size <= l <= (11 * entries[i + 1].size) / 10);
            }
        }
    }
}

/// Whether the candidate's size matches the decoded length.
fn entry_matches(size: u64, ulen: usize) -> (r: bool)
    ensures
        r == size_matches(size, ulen as int / 2 - 1),
{
    if ulen < 2 {
        return false;
    }
    let l = ulen / 2 - 1;
    size as u128 <= l as u128 && 10 * (l as u128) <= 11 * (size as u128)
}

/// The substituted form of one rendered data leaf: scans the candidates in
/// order and rewrites the leaf to the first match's placeholder.
pub fn substitute_leaf(leaf: &String, entries: &Vec<BinEntry>) -> (r: String)
    ensures
        r@ == subst_leaf(leaf@, seq_view(entries@)),
{
    let ulen = leaf.as_str().unicode_len();
    let n = entries.len();
    assert(seq_view(entries@).skip(0) =~= seq_view(entries@));
    for i in 0..n
        invariant
            n == entries@.len(),
            ulen == leaf@.len(),
            first_match(seq_view(entries@), leaf_decoded_len(leaf@)) == first_match(
                seq_view(entries@).skip(i as int),
                leaf_decoded_len(leaf@),
            ),
    {
        proof {
            let s = seq_view(entries@);
            assert(s.skip(i as int)[0] == entries@[i as int]@);
            assert(s.skip(i as int).drop_first() =~= s.skip(i + 1));
        }
        if entry_matches(entries[i].size, ulen) {
            let mut out = String::from_str("0x{{ data ");
            out.append(entries[i].path.as_str());
            out.append(" }}");
            assert(out@ =~= placeholder(entries@[i as int]@.path));
            return out;
        }
    }
    assert(seq_view(entries@).skip(n as int) =~= Seq::<BinEntryV>::empty());
    leaf.clone()
}

/// Rewrites every rendered dependency-data leaf that the heuristic
/// matches, each to the placeholder of its first matching candidate.
pub fn substitute_leaves(leaves: &mut Vec<String>, entries: &Vec<BinEntry>)
    ensures
        final(leaves)@.len() == old(leaves)@.len(),
        forall|i: int|
            0 <= i < old(leaves)@.len() ==> (#[trigger] final(leaves)@[i])@ == subst_leaf(
                old(leaves)@[i]@,
                seq_view(entries@),
            ),
{
    let n = leaves.len();
    let mut out: Vec<String> = Vec::new();
    for i in 0..n
        invariant
            n == leaves@.len(),
            out@.len() == i,
            forall|j: int|
                0 <= j < i ==> (#[trigger] out@[j])@ == subst_leaf(
                    leaves@[j]@,
                    seq_view(entries@),
                ),
    {
        out.push(substitute_leaf(&leaves[i], entries));
    }
    *leaves = out;
}

} // verus!
