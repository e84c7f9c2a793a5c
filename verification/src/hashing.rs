use vstd::prelude::*;

use crate::codec::{encode_script, script_encodable};
use crate::types::{Script, ScriptV};

verus! {

/// The ledger's default digest of a byte string: 32 bytes, a function of
/// the input bytes alone.
pub uninterp spec fn blake2b_hash(data: Seq<u8>) -> Seq<u8>;

/// Relies on ckb_hash::blake2b_256: the ledger's default 32-byte blake2b
/// digest, a function of the input bytes alone.
#[verifier::external_body]
pub(crate) fn blake2b_256(data: &Vec<u8>) -> (r: Vec<u8>)
    ensures
        r@ == blake2b_hash(data@),
        r@.len() == 32,
{
    ckb_hash::blake2b_256(data.as_slice()).to_vec()
}

/// The hash under which the ledger knows a policy: the digest of its
/// binary record.
pub open spec fn script_hash_of(s: ScriptV) -> Seq<u8> {
    blake2b_hash(encode_script(s))
}

/// Computes the hash under which the ledger knows a policy.
pub fn script_hash(s: &Script) -> (r: Vec<u8>)
    requires
        script_encodable(s@),
    ensures
        r@ == script_hash_of(s@),
        r@.len() == 32,
{
    let encoded = crate::codec::script_to_molecule(s);
    blake2b_256(&encoded)
}

} // verus!
