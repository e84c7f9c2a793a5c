use ssri_udt::balance::{check_owner_mode, collect_inputs_amount, collect_outputs_amount};
use ssri_udt::codec::encode_amount;
use ssri_udt::config::type_id_script;
use ssri_udt::error::Error;
use ssri_udt::fallback::fallback;
use ssri_udt::hashing::script_hash;
use ssri_udt::modules::SSRIUDT;
use ssri_udt::types::{CellData, CellOutput, Script, SSRIMetadata};

fn lock_script(seed: u8) -> Script {
    Script {
        code_hash: vec![seed; 32],
        hash_type: 1,
        args: vec![0, 1, seed],
    }
}

fn test_metadata() -> SSRIMetadata {
    SSRIMetadata {
        name: b"Test UDT".to_vec(),
        symbol: b"TEST".to_vec(),
        decimals: 8,
        icon: b"https://example.com/icon.png".to_vec(),
    }
}

fn metadata_cell(owner: &Script) -> CellData {
    let type_id_args = vec![0u8; 32];
    CellData {
        cell: CellOutput {
            capacity: 0,
            lock: Script {
                code_hash: owner.code_hash.clone(),
                hash_type: owner.hash_type,
                args: owner.args.clone(),
            },
            type_: Some(type_id_script(&type_id_args)),
        },
        data: test_metadata().to_molecule(),
    }
}

#[test]
fn test_transfer() {
    let wallet_amount: u128 = 20000000000;
    let transfer_amount: u128 = 10000000000;
    let change_amount: u128 = 20000000000 - 10000000000;

    let type_id_args = vec![0u8; 32];
    let user_a = lock_script(0x62);
    let user_b = lock_script(0x63);

    let input_udt_data = vec![encode_amount(wallet_amount)];
    let output_udt_data = vec![encode_amount(transfer_amount), encode_amount(change_amount)];
    let input_lock_hashes = vec![script_hash(&user_a)];
    let _ = user_b;

    let r = fallback(
        &type_id_args,
        &Vec::new(),
        &Vec::new(),
        &input_udt_data,
        &output_udt_data,
        &input_lock_hashes,
    );
    assert!(r.is_ok(), "Normal Tx Failed");
}

#[test]
fn test_mint() {
    let mint_amount: u128 = 20000000000;

    let type_id_args = vec![0u8; 32];
    let admin = lock_script(0x61);
    let user_a = lock_script(0x62);

    let dep_cells = vec![metadata_cell(&admin)];
    let output_udt_data = vec![encode_amount(mint_amount)];

    let normal = fallback(
        &type_id_args,
        &dep_cells,
        &Vec::new(),
        &Vec::new(),
        &output_udt_data,
        &vec![script_hash(&admin)],
    );
    assert!(normal.is_ok(), "Normal Mint Tx Failed");

    let unauthorized = fallback(
        &type_id_args,
        &dep_cells,
        &Vec::new(),
        &Vec::new(),
        &output_udt_data,
        &vec![script_hash(&user_a)],
    );
    assert_eq!(unauthorized.unwrap_err(), Error::NoMintPermission);
}

#[test]
fn transfer_rejects_overdraw() {
    let input_udt_data = vec![encode_amount(20000000000)];
    let output_udt_data = vec![encode_amount(25000000000)];
    let r = SSRIUDT::verify_transfer(&input_udt_data, &output_udt_data);
    assert_eq!(r.unwrap_err(), Error::InsufficientBalance);
}

#[test]
fn transfer_accepts_exact_balance() {
    let input_udt_data = vec![encode_amount(20000000000)];
    let output_udt_data = vec![encode_amount(10000000000), encode_amount(10000000000)];
    let r = SSRIUDT::verify_transfer(&input_udt_data, &output_udt_data);
    assert!(r.is_ok());
}

#[test]
fn fallback_balanced_delegates_to_transfer() {
    let ins = vec![encode_amount(20000000000)];
    let outs = vec![encode_amount(20000000000)];
    let r = fallback(
        &vec![0u8; 32],
        &Vec::new(),
        &Vec::new(),
        &ins,
        &outs,
        &Vec::new(),
    );
    assert!(r.is_ok());
}

#[test]
fn fallback_surplus_needs_owner() {
    let admin = lock_script(0x61);
    let user_a = lock_script(0x62);
    let dep_cells = vec![metadata_cell(&admin)];
    let ins: Vec<Vec<u8>> = Vec::new();
    let outs = vec![encode_amount(20000000000)];

    let authorized = fallback(
        &vec![0u8; 32],
        &dep_cells,
        &Vec::new(),
        &ins,
        &outs,
        &vec![script_hash(&admin)],
    );
    assert!(authorized.is_ok());

    let unauthorized = fallback(
        &vec![0u8; 32],
        &dep_cells,
        &Vec::new(),
        &ins,
        &outs,
        &vec![script_hash(&user_a)],
    );
    assert_eq!(unauthorized.unwrap_err(), Error::NoMintPermission);
}

#[test]
fn fallback_deficit_is_rejected() {
    let ins = vec![encode_amount(30)];
    let outs = vec![encode_amount(10)];
    let r = fallback(
        &vec![0u8; 32],
        &Vec::new(),
        &Vec::new(),
        &ins,
        &outs,
        &Vec::new(),
    );
    assert_eq!(r.unwrap_err(), Error::InsufficientBalance);
}

#[test]
fn collect_amounts_rejects_malformed_data() {
    let bad = vec![vec![0u8; 15]];
    assert_eq!(collect_inputs_amount(&bad).unwrap_err(), Error::Encoding);
    assert_eq!(collect_outputs_amount(&bad).unwrap_err(), Error::Encoding);
    let good = vec![encode_amount(1), encode_amount(2)];
    assert_eq!(collect_inputs_amount(&good).unwrap(), 3);
    assert_eq!(collect_outputs_amount(&good).unwrap(), 3);
}

#[test]
fn owner_mode_scans_input_locks() {
    let admin = lock_script(0x61);
    let user_a = lock_script(0x62);
    let admin_hash = script_hash(&admin);
    let hashes = vec![script_hash(&user_a), script_hash(&admin)];
    assert!(check_owner_mode(&admin_hash, &hashes));
    let other_hashes = vec![script_hash(&user_a)];
    assert!(!check_owner_mode(&admin_hash, &other_hashes));
}

#[test]
fn verify_mint_reports_each_failure() {
    let admin = lock_script(0x61);
    let args = vec![0u8; 32];

    let short_args = vec![0u8; 16];
    let r = SSRIUDT::verify_mint(&short_args, &Vec::new(), &Vec::new(), &Vec::new());
    assert_eq!(r.unwrap_err(), Error::InvalidUDTArgs);

    let r = SSRIUDT::verify_mint(&args, &Vec::new(), &Vec::new(), &Vec::new());
    assert_eq!(r.unwrap_err(), Error::SSRIConfigNotFound);

    let mut corrupt = metadata_cell(&admin);
    corrupt.data = vec![1, 2, 3];
    let r = SSRIUDT::verify_mint(&args, &vec![corrupt], &Vec::new(), &Vec::new());
    assert_eq!(r.unwrap_err(), Error::SSRIConfigInvalidDataFormat);

    let dep_cells = vec![metadata_cell(&admin)];
    let r = SSRIUDT::verify_mint(&args, &dep_cells, &Vec::new(), &Vec::new());
    assert_eq!(r.unwrap_err(), Error::NoMintPermission);

    let r = SSRIUDT::verify_mint(&args, &dep_cells, &Vec::new(), &vec![script_hash(&admin)]);
    assert!(r.is_ok());
}

#[test]
fn verify_mint_falls_back_to_outputs() {
    let admin = lock_script(0x61);
    let args = vec![0u8; 32];
    let output_cells = vec![metadata_cell(&admin)];
    let r = SSRIUDT::verify_mint(&args, &Vec::new(), &output_cells, &vec![script_hash(&admin)]);
    assert!(r.is_ok());
}
