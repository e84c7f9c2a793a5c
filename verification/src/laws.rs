use vstd::prelude::*;
use vstd::bytes::{spec_u128_to_le_bytes, lemma_auto_spec_u128_to_from_le_bytes};

use crate::balance::{amounts_wf, owner_present, sum_amounts};
use crate::codec::{amount_of, amount_wf, decode_metadata};
use crate::error::Error;
use crate::hashing::script_hash_of;
use crate::modules::{
    found_config_cell, type_id_args_of, verify_mint_decision, verify_transfer_decision,
};
use crate::types::CellDataV;

verus! {

/// Conservation, the permissive direction: whenever every group payload
/// is a well-formed amount and the inputs carry exactly as much as the
/// outputs, transfer verification succeeds.
pub proof fn lemma_verify_transfer_balanced(ins: Seq<Seq<u8>>, outs: Seq<Seq<u8>>)
    requires
        amounts_wf(ins),
        amounts_wf(outs),
        sum_amounts(ins) == sum_amounts(outs),
    ensures
        verify_transfer_decision(ins, outs) == Result::<(), Error>::Ok(()),
{
}

/// Conservation, the restrictive direction: whenever the inputs carry
/// less than the outputs, transfer verification reports an insufficient
/// balance.
pub proof fn lemma_verify_transfer_insufficient(ins: Seq<Seq<u8>>, outs: Seq<Seq<u8>>)
    requires
        amounts_wf(ins),
        amounts_wf(outs),
        sum_amounts(ins) < sum_amounts(outs),
    ensures
        verify_transfer_decision(ins, outs) == Result::<(), Error>::Err(
            Error::InsufficientBalance,
        ),
{
}

/// An appended amount payload reads back as the amount it was built
/// from: the 16-byte encoding loses nothing.
pub proof fn lemma_amount_round_trip(v: u128)
    ensures
        amount_wf(spec_u128_to_le_bytes(v)),
        amount_of(spec_u128_to_le_bytes(v)) == v,
{
    lemma_auto_spec_u128_to_from_le_bytes();
    assert(spec_u128_to_le_bytes(v).len() == 16);
}

/// Mint permission: once the metadata cell is resolved and its payload
/// decodes, mint verification succeeds iff some spent input's owning
/// hash equals the metadata cell's owning hash, and otherwise reports a
/// missing mint permission.
pub proof fn lemma_verify_mint_owner_iff(
    args: Seq<u8>,
    deps: Seq<CellDataV>,
    outs: Seq<CellDataV>,
    input_hashes: Seq<Seq<u8>>,
    cd: CellDataV,
)
    requires
        args.len() == 32,
        found_config_cell(args, deps, outs) == Option::Some(cd),
        decode_metadata(cd.data) is Some,
    ensures
        verify_mint_decision(args, deps, outs, input_hashes) == Result::<(), Error>::Ok(())
            <==> owner_present(script_hash_of(cd.cell.lock), input_hashes),
        !owner_present(script_hash_of(cd.cell.lock), input_hashes)
            ==> verify_mint_decision(args, deps, outs, input_hashes) == Result::<(), Error>::Err(
            Error::NoMintPermission,
        ),
{
}

/// The creation-time identity argument is deterministic: the same first
/// input identity and the same output count always give the same 32
/// bytes.
pub proof fn lemma_type_id_args_deterministic(
    input1: Seq<u8>,
    count1: u32,
    input2: Seq<u8>,
    count2: u32,
)
    requires
        input1 == input2,
        count1 == count2,
    ensures
        type_id_args_of(input1, count1) == type_id_args_of(input2, count2),
{
}

} // verus!
