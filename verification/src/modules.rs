use vstd::prelude::*;
use vstd::bytes::{spec_u128_to_le_bytes, spec_u32_to_le_bytes};

use crate::balance::{
    amounts_wf, check_owner_mode, collect_inputs_amount, collect_outputs_amount, owner_present,
    sum_amounts,
};
use crate::codec::{decode_metadata, encode_amount, encode_metadata, metadata_encodable,
    script_encodable};
use crate::config::{type_id_script, type_id_script_v};
use crate::error::Error;
use crate::hashing::{blake2b_256, blake2b_hash, script_hash, script_hash_of};
use crate::resolver::{cells_view, find_config, find_ssri_config_cell};
use crate::types::{
    CellData, CellDataV, CellDep, CellOutput, CellOutputV, Script, ScriptV, SSRIMetadata,
    Transaction, TransactionV,
};

verus! {

/// The mathematical values of a list of policies.
pub open spec fn scripts_view(s: Seq<Script>) -> Seq<ScriptV> {
    s.map_values(|x: Script| x@)
}

/// A destination cell a builder appends: capacity left for the caller to
/// fill in, the destination's owning policy, and the invoking token's own
/// policy as the type authorization.
pub open spec fn new_udt_output(lock: ScriptV, own: ScriptV) -> CellOutputV {
    CellOutputV { capacity: 0, lock, type_: Option::Some(own) }
}

/// The draft a build starts from: the caller's, or the empty one.
pub open spec fn base_of(tx: Option<Transaction>) -> TransactionV {
    match tx {
        Option::Some(t) => t@,
        Option::None => TransactionV::empty(),
    }
}

/// The creation-time identity argument of a token instance: the digest of
/// the first input's identity bytes followed by the little-endian output
/// count.
pub open spec fn type_id_args_of(first_input: Seq<u8>, output_count: u32) -> Seq<u8> {
    blake2b_hash(first_input + spec_u32_to_le_bytes(output_count))
}

/// What `verify_transfer` decides from the group's input and output data
/// payloads: malformed data is rejected, and the inputs must carry at
/// least the amount the outputs carry.
pub open spec fn verify_transfer_decision(ins: Seq<Seq<u8>>, outs: Seq<Seq<u8>>) -> Result<
    (),
    Error,
> {
    if !amounts_wf(ins) || !amounts_wf(outs) {
        Result::Err(Error::Encoding)
    } else if sum_amounts(ins) < sum_amounts(outs) {
        Result::Err(Error::InsufficientBalance)
    } else {
        Result::Ok(())
    }
}

/// The metadata cell a mint verification resolves: the first match among
/// the cell dependencies, else the first match among the outputs.
pub open spec fn found_config_cell(args: Seq<u8>, deps: Seq<CellDataV>, outs: Seq<CellDataV>) -> Option<
    CellDataV,
> {
    let expected = type_id_script_v(args);
    match find_config(deps, expected) {
        Option::Some(i) => Option::Some(deps[i]),
        Option::None => match find_config(outs, expected) {
            Option::Some(i) => Option::Some(outs[i]),
            Option::None => Option::None,
        },
    }
}

/// What `verify_mint` decides: the invoking policy's argument must be a
/// 32-byte type-id value, the metadata cell must be resolvable and its
/// payload must decode, and some spent input must be owned by the
/// metadata cell's owner.
pub open spec fn verify_mint_decision(
    args: Seq<u8>,
    deps: Seq<CellDataV>,
    outs: Seq<CellDataV>,
    input_hashes: Seq<Seq<u8>>,
) -> Result<(), Error> {
    if args.len() != 32 {
        Result::Err(Error::InvalidUDTArgs)
    } else {
        match found_config_cell(args, deps, outs) {
            Option::None => Result::Err(Error::SSRIConfigNotFound),
            Option::Some(cd) => {
                if decode_metadata(cd.data) is None {
                    Result::Err(Error::SSRIConfigInvalidDataFormat)
                } else if owner_present(script_hash_of(cd.cell.lock), input_hashes) {
                    Result::Ok(())
                } else {
                    Result::Err(Error::NoMintPermission)
                }
            },
        }
    }
}

/// Resolves the metadata cell among the cell dependencies first, the
/// outputs second.
fn locate_config_cell<'a>(
    dep_cells: &'a Vec<CellData>,
    output_cells: &'a Vec<CellData>,
    args: &Vec<u8>,
) -> (r: Option<&'a CellData>)
    ensures
        match r {
            Option::Some(cd) => found_config_cell(
                args@,
                cells_view(dep_cells@),
                cells_view(output_cells@),
            ) == Option::Some(cd@),
            Option::None => found_config_cell(
                args@,
                cells_view(dep_cells@),
                cells_view(output_cells@),
            ) is None,
        },
{
    match find_ssri_config_cell(dep_cells, args) {
        Option::Some(i) => {
            proof {
                crate::resolver::lemma_find_config_characterizes(
                    cells_view(dep_cells@),
                    type_id_script_v(args@),
                );
                assert(cells_view(dep_cells@)[i as int] == dep_cells@[i as int]@);
            }
            Option::Some(&dep_cells[i])
        },
        Option::None => {
            match find_ssri_config_cell(output_cells, args) {
                Option::Some(i) => {
                    proof {
                        crate::resolver::lemma_find_config_characterizes(
                            cells_view(output_cells@),
                            type_id_script_v(args@),
                        );
                        assert(cells_view(output_cells@)[i as int] == output_cells@[i as int]@);
                    }
                    Option::Some(&output_cells[i])
                },
                Option::None => Option::None,
            }
        },
    }
}

/// Appends one destination output per policy, in order, each typed by the
/// invoking token's own policy.
fn append_udt_outputs(t: &mut Transaction, to_lock_vec: &Vec<Script>, own_script: &Script)
    ensures
        final(t)@.version == old(t)@.version,
        final(t)@.cell_deps == old(t)@.cell_deps,
        final(t)@.header_deps == old(t)@.header_deps,
        final(t)@.inputs == old(t)@.inputs,
        final(t)@.witnesses == old(t)@.witnesses,
        final(t)@.outputs_data == old(t)@.outputs_data,
        final(t)@.outputs == old(t)@.outputs + Seq::new(
            to_lock_vec@.len(),
            |j: int| new_udt_output(scripts_view(to_lock_vec@)[j], own_script@),
        ),
{
    let ghost base = t@;
    let n = to_lock_vec.len();
    let mut i: usize = 0;
    while i < n
        invariant
            n == to_lock_vec@.len(),
            i <= n,
            t@.version == base.version,
            t@.cell_deps == base.cell_deps,
            t@.header_deps == base.header_deps,
            t@.inputs == base.inputs,
            t@.witnesses == base.witnesses,
            t@.outputs_data == base.outputs_data,
            t@.outputs == base.outputs + Seq::new(
                i as nat,
                |j: int| new_udt_output(scripts_view(to_lock_vec@)[j], own_script@),
            ),
        decreases n - i,
    {
        let out = CellOutput {
            capacity: 0,
            lock: to_lock_vec[i].clone(),
            type_: Option::Some(own_script.clone()),
        };
        let ghost outv = out@;
        let ghost oldxs = t.outputs@;
        let ghost oldview = t@.outputs;
        t.outputs.push(out);
        i = i + 1;
        proof {
            let target = base.outputs + Seq::new(
                i as nat,
                |j: int| new_udt_output(scripts_view(to_lock_vec@)[j], own_script@),
            );
            assert(outv == new_udt_output(scripts_view(to_lock_vec@)[i - 1], own_script@));
            assert(oldview.len() == oldxs.len());
            assert(t.outputs@.len() == oldxs.len() + 1);
            assert(t@.outputs.len() == t.outputs@.len());
            assert forall|j: int| 0 <= j < target.len() implies t@.outputs[j] == target[j] by {
                assert(t@.outputs[j] == t.outputs@[j]@);
                if j < target.len() - 1 {
                    assert(t.outputs@[j] == oldxs[j]);
                    assert(oldview[j] == oldxs[j]@);
                } else {
                    assert(t.outputs@[j]@ == outv);
                }
            }
            assert(t@.outputs =~= target);
        }
    }
}

/// Appends one data payload per amount, in order: its 16-byte
/// little-endian encoding.
fn append_amount_data(t: &mut Transaction, to_amount_vec: &Vec<u128>)
    ensures
        final(t)@.version == old(t)@.version,
        final(t)@.cell_deps == old(t)@.cell_deps,
        final(t)@.header_deps == old(t)@.header_deps,
        final(t)@.inputs == old(t)@.inputs,
        final(t)@.witnesses == old(t)@.witnesses,
        final(t)@.outputs == old(t)@.outputs,
        final(t)@.outputs_data == old(t)@.outputs_data + Seq::new(
            to_amount_vec@.len(),
            |j: int| spec_u128_to_le_bytes(to_amount_vec@[j]),
        ),
{
    let ghost base = t@;
    let m = to_amount_vec.len();
    let mut k: usize = 0;
    while k < m
        invariant
            m == to_amount_vec@.len(),
            k <= m,
            t@.version == base.version,
            t@.cell_deps == base.cell_deps,
            t@.header_deps == base.header_deps,
            t@.inputs == base.inputs,
            t@.witnesses == base.witnesses,
            t@.outputs == base.outputs,
            t@.outputs_data == base.outputs_data + Seq::new(
                k as nat,
                |j: int| spec_u128_to_le_bytes(to_amount_vec@[j]),
            ),
        decreases m - k,
    {
        let data = encode_amount(to_amount_vec[k]);
        let ghost datav = data@;
        let ghost oldxs = t.outputs_data@;
        let ghost oldview = t@.outputs_data;
        t.outputs_data.push(data);
        k = k + 1;
        proof {
            let target = base.outputs_data + Seq::new(
                k as nat,
                |j: int| spec_u128_to_le_bytes(to_amount_vec@[j]),
            );
            assert(datav == spec_u128_to_le_bytes(to_amount_vec@[k - 1]));
            assert(oldview.len() == oldxs.len());
            assert(t.outputs_data@.len() == oldxs.len() + 1);
            assert(t@.outputs_data.len() == t.outputs_data@.len());
            assert forall|j: int| 0 <= j < target.len() implies t@.outputs_data[j] == target[j] by {
                assert(t@.outputs_data[j] == t.outputs_data@[j].deep_view());
                assert(t.outputs_data@[j].deep_view() =~= t.outputs_data@[j]@);
                if j < target.len() - 1 {
                    assert(t.outputs_data@[j] == oldxs[j]);
                    assert(oldview[j] == oldxs[j].deep_view());
                    assert(oldxs[j].deep_view() =~= oldxs[j]@);
                } else {
                    assert(t.outputs_data@[j]@ == datav);
                }
            }
            assert(t@.outputs_data =~= target);
        }
    }
}

/// The token's one capability set: building transfer and mint drafts,
/// verifying balance conservation and mint permission, and reading the
/// metadata record.
pub struct SSRIUDT;

impl SSRIUDT {
    /// Builds or extends a transfer draft: one new output per destination
    /// policy, in order, each carrying the invoking token's policy as its
    /// type and the 16-byte encoding of its amount as its data.  The two
    /// lists must have the same length; nothing else of the draft changes.
    pub fn transfer(
        tx: Option<Transaction>,
        to_lock_vec: Vec<Script>,
        to_amount_vec: Vec<u128>,
        own_script: &Script,
    ) -> (r: Result<Transaction, Error>)
        ensures
            match r {
                Result::Ok(t) => {
                    let base = base_of(tx);
                    &&& to_lock_vec@.len() == to_amount_vec@.len()
                    &&& t@.version == base.version
                    &&& t@.cell_deps == base.cell_deps
                    &&& t@.header_deps == base.header_deps
                    &&& t@.inputs == base.inputs
                    &&& t@.witnesses == base.witnesses
                    &&& t@.outputs == base.outputs + Seq::new(
                        to_lock_vec@.len(),
                        |i: int| new_udt_output(scripts_view(to_lock_vec@)[i], own_script@),
                    )
                    &&& t@.outputs_data == base.outputs_data + Seq::new(
                        to_amount_vec@.len(),
                        |i: int| spec_u128_to_le_bytes(to_amount_vec@[i]),
                    )
                    &&& base.wf() ==> t@.wf()
                },
                Result::Err(e) => to_lock_vec@.len() != to_amount_vec@.len() && e
                    == Error::SSRIMethodsArgsInvalid,
            },
    {
        if to_amount_vec.len() != to_lock_vec.len() {
            return Result::Err(Error::SSRIMethodsArgsInvalid);
        }
        let mut t = match tx {
            Option::Some(t0) => t0,
            Option::None => Transaction::new_default(),
        };
        append_udt_outputs(&mut t, &to_lock_vec, own_script);
        append_amount_data(&mut t, &to_amount_vec);
        Result::Ok(t)
    }

    /// Builds or extends a mint draft: the same append behaviour as a
    /// transfer, with no length precondition, plus exactly one new cell
    /// dependency referencing the metadata cell.
    pub fn mint(
        tx: Option<Transaction>,
        to_lock_vec: Vec<Script>,
        to_amount_vec: Vec<u128>,
        own_script: &Script,
        metadata_dep: CellDep,
    ) -> (r: Result<Transaction, Error>)
        ensures
            match r {
                Result::Ok(t) => {
                    let base = base_of(tx);
                    &&& t@.version == base.version
                    &&& t@.cell_deps == base.cell_deps.push(metadata_dep@)
                    &&& t@.header_deps == base.header_deps
                    &&& t@.inputs == base.inputs
                    &&& t@.witnesses == base.witnesses
                    &&& t@.outputs == base.outputs + Seq::new(
                        to_lock_vec@.len(),
                        |i: int| new_udt_output(scripts_view(to_lock_vec@)[i], own_script@),
                    )
                    &&& t@.outputs_data == base.outputs_data + Seq::new(
                        to_amount_vec@.len(),
                        |i: int| spec_u128_to_le_bytes(to_amount_vec@[i]),
                    )
                    &&& base.wf() && to_lock_vec@.len() == to_amount_vec@.len() ==> t@.wf()
                },
                Result::Err(e) => false,
            },
    {
        let mut t = match tx {
            Option::Some(t0) => t0,
            Option::None => Transaction::new_default(),
        };
        append_udt_outputs(&mut t, &to_lock_vec, own_script);
        append_amount_data(&mut t, &to_amount_vec);
        let ghost before_dep = t@;
        t.cell_deps.push(metadata_dep);
        proof {
            assert(t@.cell_deps =~~= before_dep.cell_deps.push(metadata_dep@));
            assert(t@.outputs =~~= before_dep.outputs);
            assert(t@.outputs_data =~~= before_dep.outputs_data);
        }
        Result::Ok(t)
    }

    /// Verifies balance conservation over the invoking token's group:
    /// succeeds iff every group payload is a well-formed amount and the
    /// inputs carry at least as much as the outputs.
    pub fn verify_transfer(input_datas: &Vec<Vec<u8>>, output_datas: &Vec<Vec<u8>>) -> (r: Result<
        (),
        Error,
    >)
        requires
            amounts_wf(input_datas.deep_view()) ==> sum_amounts(input_datas.deep_view())
                <= u128::MAX,
            amounts_wf(output_datas.deep_view()) ==> sum_amounts(output_datas.deep_view())
                <= u128::MAX,
        ensures
            r == verify_transfer_decision(input_datas.deep_view(), output_datas.deep_view()),
    {
        let inputs_amount = match collect_inputs_amount(input_datas) {
            Result::Ok(v) => v,
            Result::Err(e) => {
                return Result::Err(e);
            },
        };
        let outputs_amount = match collect_outputs_amount(output_datas) {
            Result::Ok(v) => v,
            Result::Err(e) => {
                return Result::Err(e);
            },
        };
        if inputs_amount < outputs_amount {
            return Result::Err(Error::InsufficientBalance);
        }
        Result::Ok(())
    }

    /// Verifies mint permission: resolves the metadata cell from the
    /// invoking policy's 32-byte argument (among the cell dependencies
    /// first, the outputs second), checks that its payload decodes, and
    /// succeeds iff some spent input is owned by that cell's owner.
    pub fn verify_mint(
        script_args: &Vec<u8>,
        dep_cells: &Vec<CellData>,
        output_cells: &Vec<CellData>,
        input_lock_hashes: &Vec<Vec<u8>>,
    ) -> (r: Result<(), Error>)
        requires
            forall|i: int|
                0 <= i < dep_cells@.len() ==> script_encodable(
                    (#[trigger] dep_cells@[i])@.cell.lock,
                ),
            forall|i: int|
                0 <= i < output_cells@.len() ==> script_encodable(
                    (#[trigger] output_cells@[i])@.cell.lock,
                ),
        ensures
            r == verify_mint_decision(
                script_args@,
                cells_view(dep_cells@),
                cells_view(output_cells@),
                input_lock_hashes.deep_view(),
            ),
    {
        if script_args.len() != 32 {
            return Result::Err(Error::InvalidUDTArgs);
        }
        let found: &CellData = match locate_config_cell(dep_cells, output_cells, script_args) {
            Option::Some(cd) => cd,
            Option::None => {
                return Result::Err(Error::SSRIConfigNotFound);
            },
        };
        proof {
            let depsv = cells_view(dep_cells@);
            let outsv = cells_view(output_cells@);
            let expected = type_id_script_v(script_args@);
            crate::resolver::lemma_find_config_characterizes(depsv, expected);
            crate::resolver::lemma_find_config_characterizes(outsv, expected);
            assert forall|i: int| 0 <= i < depsv.len() implies #[trigger] depsv[i]
                == dep_cells@[i]@ by {}
            assert forall|i: int| 0 <= i < outsv.len() implies #[trigger] outsv[i]
                == output_cells@[i]@ by {}
            assert(script_encodable(found@.cell.lock));
        }
        match SSRIMetadata::from_molecule(&found.data) {
            Result::Ok(_) => {},
            Result::Err(_) => {
                return Result::Err(Error::SSRIConfigInvalidDataFormat);
            },
        }
        let owner_lockhash = script_hash(&found.cell.lock);
        if check_owner_mode(&owner_lockhash, input_lock_hashes) {
            Result::Ok(())
        } else {
            Result::Err(Error::NoMintPermission)
        }
    }

    /// Reads the token's name from a located metadata payload.
    pub fn name(config_data: &Vec<u8>) -> (r: Result<Vec<u8>, Error>)
        ensures
            match r {
                Result::Ok(b) => decode_metadata(config_data@) is Some && b@ == decode_metadata(
                    config_data@,
                ).unwrap().name,
                Result::Err(e) => decode_metadata(config_data@) is None && e
                    == Error::SSRIConfigNotFound,
            },
    {
        match SSRIMetadata::from_molecule(config_data) {
            Result::Ok(m) => Result::Ok(m.name),
            Result::Err(_) => Result::Err(Error::SSRIConfigNotFound),
        }
    }

    /// Reads the token's symbol from a located metadata payload.
    pub fn symbol(config_data: &Vec<u8>) -> (r: Result<Vec<u8>, Error>)
        ensures
            match r {
                Result::Ok(b) => decode_metadata(config_data@) is Some && b@ == decode_metadata(
                    config_data@,
                ).unwrap().symbol,
                Result::Err(e) => decode_metadata(config_data@) is None && e
                    == Error::SSRIConfigNotFound,
            },
    {
        match SSRIMetadata::from_molecule(config_data) {
            Result::Ok(m) => Result::Ok(m.symbol),
            Result::Err(_) => Result::Err(Error::SSRIConfigNotFound),
        }
    }

    /// Reads the token's decimal count from a located metadata payload.
    pub fn decimals(config_data: &Vec<u8>) -> (r: Result<u8, Error>)
        ensures
            match r {
                Result::Ok(d) => decode_metadata(config_data@) is Some && d == decode_metadata(
                    config_data@,
                ).unwrap().decimals,
                Result::Err(e) => decode_metadata(config_data@) is None && e
                    == Error::SSRIConfigNotFound,
            },
    {
        match SSRIMetadata::from_molecule(config_data) {
            Result::Ok(m) => Result::Ok(m.decimals),
            Result::Err(_) => Result::Err(Error::SSRIConfigNotFound),
        }
    }

    /// Reads the token's icon reference from a located metadata payload.
    pub fn icon(config_data: &Vec<u8>) -> (r: Result<Vec<u8>, Error>)
        ensures
            match r {
                Result::Ok(b) => decode_metadata(config_data@) is Some && b@ == decode_metadata(
                    config_data@,
                ).unwrap().icon,
                Result::Err(e) => decode_metadata(config_data@) is None && e
                    == Error::SSRIConfigNotFound,
            },
    {
        match SSRIMetadata::from_molecule(config_data) {
            Result::Ok(m) => Result::Ok(m.icon),
            Result::Err(_) => Result::Err(Error::SSRIConfigNotFound),
        }
    }
}

impl SSRIMetadata {
    /// Extends a creation draft: derives the token's permanent type-id
    /// argument from the first input's identity and the output count,
    /// then appends the one metadata cell — owned by the owner policy,
    /// typed by the type-id policy — with this record as its payload.
    /// A draft with no inputs has no identity to derive and is rejected.
    pub fn generate_ssri_create_tx(&self, tx: Transaction, owner_lock: Script) -> (r: Result<
        Transaction,
        Error,
    >)
        requires
            metadata_encodable(self@),
            tx@.outputs.len() <= u32::MAX,
        ensures
            match r {
                Result::Ok(t) => {
                    let args = type_id_args_of(tx@.inputs[0], tx@.outputs.len() as u32);
                    &&& tx@.inputs.len() > 0
                    &&& t@.version == tx@.version
                    &&& t@.cell_deps == tx@.cell_deps
                    &&& t@.header_deps == tx@.header_deps
                    &&& t@.inputs == tx@.inputs
                    &&& t@.witnesses == tx@.witnesses
                    &&& t@.outputs == tx@.outputs.push(
                        CellOutputV {
                            capacity: 0,
                            lock: owner_lock@,
                            type_: Option::Some(type_id_script_v(args)),
                        },
                    )
                    &&& t@.outputs_data == tx@.outputs_data.push(encode_metadata(self@))
                    &&& tx@.wf() ==> t@.wf()
                },
                Result::Err(e) => tx@.inputs.len() == 0 && e == Error::InvalidTransactionInputs,
            },
    {
        if tx.inputs.len() == 0 {
            return Result::Err(Error::InvalidTransactionInputs);
        }
        let mut preimage: Vec<u8> = Vec::new();
        crate::codec::append_copy(&mut preimage, &tx.inputs[0]);
        let out_count = tx.outputs.len() as u32;
        crate::codec::append_le4(&mut preimage, out_count);
        proof {
            assert(tx.inputs@[0]@ == tx@.inputs[0]);
        }
        let args = blake2b_256(&preimage);
        let type_script = type_id_script(&args);
        let new_output = CellOutput {
            capacity: 0,
            lock: owner_lock,
            type_: Option::Some(type_script),
        };
        let data = self.to_molecule();
        let mut t = tx;
        t.outputs.push(new_output);
        t.outputs_data.push(data);
        proof {
            assert(t@.outputs =~~= tx@.outputs.push(
                CellOutputV {
                    capacity: 0,
                    lock: owner_lock@,
                    type_: Option::Some(
                        type_id_script_v(type_id_args_of(tx@.inputs[0], tx@.outputs.len() as u32)),
                    ),
                },
            ));
            assert(t@.outputs_data =~~= tx@.outputs_data.push(encode_metadata(self@)));
        }
        Result::Ok(t)
    }
}

} // verus!
