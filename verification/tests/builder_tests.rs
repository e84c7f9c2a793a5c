use ssri_udt::codec::encode_amount;
use ssri_udt::error::Error;
use ssri_udt::modules::SSRIUDT;
use ssri_udt::types::{CellDep, CellOutput, Script, SSRIMetadata, Transaction};

fn own_script() -> Script {
    Script {
        code_hash: vec![9u8; 32],
        hash_type: 1,
        args: vec![0u8; 32],
    }
}

fn dest(seed: u8) -> Script {
    Script {
        code_hash: vec![seed; 32],
        hash_type: 1,
        args: vec![seed],
    }
}

fn base_draft() -> Transaction {
    Transaction {
        version: 7,
        cell_deps: vec![CellDep { out_point: vec![1, 2, 3], dep_type: 0 }],
        header_deps: vec![vec![4u8; 32]],
        inputs: vec![vec![5u8; 44]],
        outputs: vec![CellOutput { capacity: 100, lock: dest(1), type_: None }],
        outputs_data: vec![vec![0u8; 16]],
        witnesses: vec![vec![6, 7]],
    }
}

#[test]
fn transfer_requires_equal_lengths() {
    let r = SSRIUDT::transfer(
        None,
        vec![dest(1), dest(2)],
        vec![5u128],
        &own_script(),
    );
    assert_eq!(r.unwrap_err(), Error::SSRIMethodsArgsInvalid);
}

#[test]
fn transfer_appends_outputs_and_encoded_amounts() {
    let own = own_script();
    let amounts: Vec<u128> = vec![10000000000, 25, 0];
    let locks = vec![dest(1), dest(2), dest(3)];
    let t = SSRIUDT::transfer(Some(base_draft()), locks, amounts.clone(), &own).unwrap();

    assert_eq!(t.version, 7);
    assert_eq!(t.cell_deps.len(), 1);
    assert_eq!(t.header_deps.len(), 1);
    assert_eq!(t.inputs.len(), 1);
    assert_eq!(t.witnesses.len(), 1);
    assert_eq!(t.outputs.len(), 4);
    assert_eq!(t.outputs_data.len(), 4);
    for (i, amount) in amounts.iter().enumerate() {
        let cell = &t.outputs[i + 1];
        assert_eq!(cell.capacity, 0);
        assert_eq!(cell.lock.code_hash, dest((i + 1) as u8).code_hash);
        let ty = cell.type_.as_ref().unwrap();
        assert_eq!(ty.code_hash, own.code_hash);
        assert_eq!(ty.args, own.args);
        assert_eq!(t.outputs_data[i + 1], encode_amount(*amount));
    }
}

#[test]
fn transfer_from_fresh_draft_starts_empty() {
    let own = own_script();
    let t = SSRIUDT::transfer(None, vec![dest(1)], vec![42u128], &own).unwrap();
    assert_eq!(t.version, 0);
    assert_eq!(t.cell_deps.len(), 0);
    assert_eq!(t.inputs.len(), 0);
    assert_eq!(t.outputs.len(), 1);
    assert_eq!(t.outputs_data, vec![encode_amount(42)]);
}

#[test]
fn mint_appends_exactly_one_cell_dep() {
    let own = own_script();
    let dep = CellDep { out_point: vec![8u8; 36], dep_type: 0 };
    let t = SSRIUDT::mint(
        Some(base_draft()),
        vec![dest(4)],
        vec![20000000000u128],
        &own,
        dep,
    )
    .unwrap();
    assert_eq!(t.cell_deps.len(), 2);
    assert_eq!(t.cell_deps[1].out_point, vec![8u8; 36]);
    assert_eq!(t.outputs.len(), 2);
    assert_eq!(t.outputs_data[1], encode_amount(20000000000));

    let t2 = SSRIUDT::mint(
        None,
        Vec::new(),
        Vec::new(),
        &own,
        CellDep { out_point: vec![9u8; 36], dep_type: 1 },
    )
    .unwrap();
    assert_eq!(t2.cell_deps.len(), 1);
    assert_eq!(t2.outputs.len(), 0);
}

#[test]
fn create_appends_metadata_cell() {
    let md = SSRIMetadata {
        name: b"Test UDT".to_vec(),
        symbol: b"TEST".to_vec(),
        decimals: 8,
        icon: b"https://example.com/icon.png".to_vec(),
    };
    let owner = dest(0x61);
    let t = md.generate_ssri_create_tx(base_draft(), owner).unwrap();
    assert_eq!(t.outputs.len(), 2);
    assert_eq!(t.outputs_data.len(), 2);
    let new_cell = &t.outputs[1];
    let ty = new_cell.type_.as_ref().unwrap();
    assert_eq!(ty.hash_type, 1);
    assert_eq!(ty.args.len(), 32);
    let expected_code: Vec<u8> = {
        let mut v = vec![0u8; 25];
        v.extend_from_slice(b"TYPE_ID");
        v
    };
    assert_eq!(ty.code_hash, expected_code);
    let decoded = SSRIMetadata::from_molecule(&t.outputs_data[1]).unwrap();
    assert_eq!(decoded.name, md.name);
    assert_eq!(decoded.symbol, md.symbol);
    assert_eq!(decoded.decimals, md.decimals);
    assert_eq!(decoded.icon, md.icon);
}

#[test]
fn create_rejects_empty_inputs() {
    let md = SSRIMetadata {
        name: Vec::new(),
        symbol: Vec::new(),
        decimals: 0,
        icon: Vec::new(),
    };
    let mut draft = base_draft();
    draft.inputs = Vec::new();
    let r = md.generate_ssri_create_tx(draft, dest(0x61));
    assert_eq!(r.unwrap_err(), Error::InvalidTransactionInputs);
}

#[test]
fn create_identity_is_deterministic() {
    let md = SSRIMetadata {
        name: b"Test UDT".to_vec(),
        symbol: b"TEST".to_vec(),
        decimals: 8,
        icon: b"https://example.com/icon.png".to_vec(),
    };
    let t1 = md.generate_ssri_create_tx(base_draft(), dest(0x61)).unwrap();
    let t2 = md.generate_ssri_create_tx(base_draft(), dest(0x61)).unwrap();
    let args1 = t1.outputs[1].type_.as_ref().unwrap().args.clone();
    let args2 = t2.outputs[1].type_.as_ref().unwrap().args.clone();
    assert_eq!(args1, args2);

    let mut other = base_draft();
    other.inputs = vec![vec![7u8; 44]];
    let t3 = md.generate_ssri_create_tx(other, dest(0x61)).unwrap();
    let args3 = t3.outputs[1].type_.as_ref().unwrap().args.clone();
    assert_ne!(args1, args3);
}

#[test]
fn create_identity_hashes_input_and_output_count() {
    let md = SSRIMetadata {
        name: b"Test UDT".to_vec(),
        symbol: b"TEST".to_vec(),
        decimals: 8,
        icon: b"https://example.com/icon.png".to_vec(),
    };
    let draft = base_draft();
    let first_input = draft.inputs[0].clone();
    let output_count = draft.outputs.len() as u32;
    let t = md.generate_ssri_create_tx(draft, dest(0x61)).unwrap();
    let mut preimage = first_input;
    preimage.extend_from_slice(&output_count.to_le_bytes());
    let expected = ckb_hash::blake2b_256(&preimage).to_vec();
    assert_eq!(t.outputs[1].type_.as_ref().unwrap().args, expected);
}
