use vstd::prelude::*;

use crate::balance::{amounts_wf, sum_amounts};
use crate::codec::script_encodable;
use crate::error::Error;
use crate::modules::{verify_mint_decision, verify_transfer_decision, SSRIUDT};
use crate::resolver::cells_view;
use crate::types::{CellData, CellDataV};

verus! {

/// What the legacy validation path decides: malformed group data is
/// rejected; then, by the sign of the aggregate balance delta, a surplus
/// of outputs must be an authorized mint, a balanced transaction is
/// re-checked as a transfer, and a deficit of outputs destroys value and
/// is rejected outright.
pub open spec fn fallback_decision(
    args: Seq<u8>,
    deps: Seq<CellDataV>,
    out_cells: Seq<CellDataV>,
    ins_data: Seq<Seq<u8>>,
    outs_data: Seq<Seq<u8>>,
    input_hashes: Seq<Seq<u8>>,
) -> Result<(), Error> {
    if !amounts_wf(ins_data) || !amounts_wf(outs_data) {
        Result::Err(Error::Encoding)
    } else if sum_amounts(ins_data) < sum_amounts(outs_data) {
        verify_mint_decision(args, deps, out_cells, input_hashes)
    } else if sum_amounts(ins_data) == sum_amounts(outs_data) {
        verify_transfer_decision(ins_data, outs_data)
    } else {
        Result::Err(Error::InsufficientBalance)
    }
}

/// The legacy validation path, entered when the invocation carries no
/// rich call: sums the group's input and output amounts and branches on
/// their comparison, delegating to mint verification on a surplus of
/// outputs and to transfer verification on exact balance.
pub fn fallback(
    script_args: &Vec<u8>,
    dep_cells: &Vec<CellData>,
    output_cells: &Vec<CellData>,
    input_udt_data: &Vec<Vec<u8>>,
    output_udt_data: &Vec<Vec<u8>>,
    input_lock_hashes: &Vec<Vec<u8>>,
) -> (r: Result<(), Error>)
    requires
        amounts_wf(input_udt_data.deep_view()) ==> sum_amounts(input_udt_data.deep_view())
            <= u128::MAX,
        amounts_wf(output_udt_data.deep_view()) ==> sum_amounts(output_udt_data.deep_view())
            <= u128::MAX,
        forall|i: int|
            0 <= i < dep_cells@.len() ==> script_encodable((#[trigger] dep_cells@[i])@.cell.lock),
        forall|i: int|
            0 <= i < output_cells@.len() ==> script_encodable(
                (#[trigger] output_cells@[i])@.cell.lock,
            ),
    ensures
        r == fallback_decision(
            script_args@,
            cells_view(dep_cells@),
            cells_view(output_cells@),
            input_udt_data.deep_view(),
            output_udt_data.deep_view(),
            input_lock_hashes.deep_view(),
        ),
{
    let input_amount = match crate::balance::collect_inputs_amount(input_udt_data) {
        Result::Ok(v) => v,
        Result::Err(e) => {
            return Result::Err(e);
        },
    };
    let output_amount = match crate::balance::collect_outputs_amount(output_udt_data) {
        Result::Ok(v) => v,
        Result::Err(e) => {
            return Result::Err(e);
        },
    };
    if input_amount < output_amount {
        SSRIUDT::verify_mint(script_args, dep_cells, output_cells, input_lock_hashes)
    } else if input_amount == output_amount {
        SSRIUDT::verify_transfer(input_udt_data, output_udt_data)
    } else {
        Result::Err(Error::InsufficientBalance)
    }
}

} // verus!
