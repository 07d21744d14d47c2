//! Content digests of data buffers and of scripts. The digests themselves
//! are computed by the chain's own library; this crate only names their
//! results, since both are functions of their arguments alone.

use ckb_types::prelude::{Builder, Entity, Pack};
use vstd::prelude::*;

verus! {

/// The 32-byte content digest of a data buffer, as the chain defines it.
pub uninterp spec fn data_digest_of(data: Seq<u8>) -> Seq<u8>;

/// The 32-byte identifying digest of a script, as the chain defines it: a
/// function of the script's code hash, hash-type discriminant and argument
/// buffer alone.
pub uninterp spec fn script_digest_of(code_hash: Seq<u8>, hash_type: u8, args: Seq<u8>) -> Seq<u8>;

/// Relies on ckb_types::packed::CellOutput::calc_data_hash: the 32-byte
/// digest of a cell's data (blake2b of the bytes; the zero digest for an
/// empty buffer), a function of the bytes alone.
#[verifier::external_body]
pub(crate) fn data_digest(data: &Vec<u8>) -> (r: Vec<u8>)
    ensures
        r@ == data_digest_of(data@),
        r@.len() == 32,
{
    ckb_types::packed::CellOutput::calc_data_hash(data.as_slice()).as_slice().to_vec()
}

/// Relies on ckb_types::packed::Script::calc_script_hash: the 32-byte
/// digest of the script's canonical serialization, a function of its three
/// fields alone. The script is assembled with
/// ckb_types::packed::Script::new_builder from the given fields.
#[verifier::external_body]
pub(crate) fn script_digest(code_hash: &Vec<u8>, hash_type: u8, args: &Vec<u8>) -> (r: Vec<u8>)
    requires
        code_hash@.len() == 32,
    ensures
        r@ == script_digest_of(code_hash@, hash_type, args@),
        r@.len() == 32,
{
    let script = ckb_types::packed::Script::new_builder()
        .code_hash(ckb_types::packed::Byte32::from_slice(code_hash.as_slice()).unwrap())
        .hash_type(ckb_types::packed::Byte::new(hash_type))
        .args(args.as_slice().pack())
        .build();
    script.calc_script_hash().as_slice().to_vec()
}

} // verus!
