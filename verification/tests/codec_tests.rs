use ssri_udt::codec::{decode_hex, encode_amount, parse_amount_list, script_to_molecule};
use ssri_udt::error::Error;
use ssri_udt::hashing::script_hash;
use ssri_udt::modules::SSRIUDT;
use ssri_udt::types::{Script, SSRIMetadata};
use ckb_std::ckb_types::packed;
use ckb_std::ckb_types::prelude::{Builder, Entity, Pack};

#[test]
fn generic_test() {
    let hex: Vec<u8> = b"0000".to_vec();
    let decoded_hex = decode_hex(&hex).unwrap();
    assert_eq!(decoded_hex, vec![0u8, 0u8]);
}

#[test]
fn hex_decoding_is_exact() {
    let hex: Vec<u8> = b"00ff10Ab".to_vec();
    assert_eq!(decode_hex(&hex).unwrap(), vec![0x00, 0xff, 0x10, 0xab]);
    assert_eq!(decode_hex(&b"".to_vec()).unwrap(), Vec::<u8>::new());
    assert_eq!(
        decode_hex(&b"0".to_vec()).unwrap_err(),
        Error::MoleculeVerificationError
    );
    assert_eq!(
        decode_hex(&b"0g".to_vec()).unwrap_err(),
        Error::MoleculeVerificationError
    );
}

#[test]
fn amount_encoding_is_little_endian() {
    let b = encode_amount(1);
    let mut expected = vec![0u8; 16];
    expected[0] = 1;
    assert_eq!(b, expected);

    let b = encode_amount(20000000000);
    // 20000000000 = 0x04_A817C800
    assert_eq!(&b[0..5], &[0x00, 0xc8, 0x17, 0xa8, 0x04]);
    assert_eq!(&b[5..], &[0u8; 11]);
}

#[test]
fn amount_list_skips_prefix_and_chunks() {
    let mut raw = vec![2, 0, 0, 0];
    raw.extend_from_slice(&encode_amount(7));
    raw.extend_from_slice(&encode_amount(20000000000));
    let amounts = parse_amount_list(&raw);
    assert_eq!(amounts, vec![7u128, 20000000000u128]);

    let empty = vec![0, 0, 0, 0];
    assert_eq!(parse_amount_list(&empty), Vec::<u128>::new());
}

#[test]
fn metadata_round_trip() {
    let md = SSRIMetadata {
        name: b"Test UDT".to_vec(),
        symbol: b"TEST".to_vec(),
        decimals: 8,
        icon: b"https://example.com/icon.png".to_vec(),
    };
    let bytes = md.to_molecule();
    let back = SSRIMetadata::from_molecule(&bytes).unwrap();
    assert_eq!(back.name, md.name);
    assert_eq!(back.symbol, md.symbol);
    assert_eq!(back.decimals, md.decimals);
    assert_eq!(back.icon, md.icon);
}

#[test]
fn metadata_encoding_matches_reference_codec() {
    let md = SSRIMetadata {
        name: b"Test UDT".to_vec(),
        symbol: b"TEST".to_vec(),
        decimals: 8,
        icon: b"https://example.com/icon.png".to_vec(),
    };
    let bytes = md.to_molecule();

    fn bytes_field(b: &[u8]) -> Vec<u8> {
        let mut v = (b.len() as u32).to_le_bytes().to_vec();
        v.extend_from_slice(b);
        v
    }
    let parts = vec![
        bytes_field(b"Test UDT"),
        bytes_field(b"TEST"),
        vec![8u8],
        bytes_field(b"https://example.com/icon.png"),
    ];
    let expected = serde_molecule::molecule::assemble_table(&parts);
    assert_eq!(bytes, expected);

    let fields = serde_molecule::molecule::disassemble_table(&bytes).unwrap();
    assert_eq!(fields.len(), 4);
    assert_eq!(fields[0], parts[0].as_slice());
    assert_eq!(fields[1], parts[1].as_slice());
    assert_eq!(fields[2], parts[2].as_slice());
    assert_eq!(fields[3], parts[3].as_slice());
}

#[test]
fn metadata_decode_rejects_malformed_records() {
    assert!(SSRIMetadata::from_molecule(&vec![]).is_err());
    assert!(SSRIMetadata::from_molecule(&vec![1, 2, 3]).is_err());
    // Declared size disagrees with the payload.
    assert!(SSRIMetadata::from_molecule(&vec![99, 0, 0, 0, 20, 0, 0, 0]).is_err());
    // A record with too few fields.
    let md = SSRIMetadata {
        name: Vec::new(),
        symbol: Vec::new(),
        decimals: 0,
        icon: Vec::new(),
    };
    let mut bytes = md.to_molecule();
    // Corrupt the first offset so the header no longer parses.
    bytes[4] = 3;
    assert!(SSRIMetadata::from_molecule(&bytes).is_err());
}

#[test]
fn metadata_accessors_read_fields() {
    let md = SSRIMetadata {
        name: b"Test UDT".to_vec(),
        symbol: b"TEST".to_vec(),
        decimals: 8,
        icon: b"https://example.com/icon.png".to_vec(),
    };
    let bytes = md.to_molecule();
    assert_eq!(SSRIUDT::name(&bytes).unwrap(), b"Test UDT".to_vec());
    assert_eq!(SSRIUDT::symbol(&bytes).unwrap(), b"TEST".to_vec());
    assert_eq!(SSRIUDT::decimals(&bytes).unwrap(), 8);
    assert_eq!(
        SSRIUDT::icon(&bytes).unwrap(),
        b"https://example.com/icon.png".to_vec()
    );
    let garbage = vec![0u8; 3];
    assert_eq!(
        SSRIUDT::name(&garbage).unwrap_err(),
        Error::SSRIConfigNotFound
    );
}

#[test]
fn script_hash_is_the_ledger_digest() {
    let s = Script {
        code_hash: vec![0xaa; 32],
        hash_type: 1,
        args: vec![1, 2, 3],
    };
    let encoded = script_to_molecule(&s);

    // The binary record: 16-byte header, the code identifier, the hash
    // kind, then the length-prefixed argument bytes.
    let mut expected = Vec::new();
    expected.extend_from_slice(&(53u32 + 3).to_le_bytes());
    expected.extend_from_slice(&16u32.to_le_bytes());
    expected.extend_from_slice(&48u32.to_le_bytes());
    expected.extend_from_slice(&49u32.to_le_bytes());
    expected.extend_from_slice(&[0xaa; 32]);
    expected.push(1);
    expected.extend_from_slice(&3u32.to_le_bytes());
    expected.extend_from_slice(&[1, 2, 3]);
    assert_eq!(encoded, expected);

    let h = script_hash(&s);
    assert_eq!(h.len(), 32);
    assert_eq!(h, ckb_hash::blake2b_256(&expected).to_vec());
    assert_ne!(h, encoded);
}

#[test]
fn dynvec_split_matches_reference_assembly() {
    let parts = vec![vec![1u8, 2, 3], vec![], vec![4u8]];
    let raw = serde_molecule::molecule::assemble_table(&parts);
    let split = ssri_udt::codec::split_dynvec(&raw).unwrap();
    assert_eq!(split, parts);

    let empty = serde_molecule::molecule::assemble_table(&[]);
    assert_eq!(
        ssri_udt::codec::split_dynvec(&empty).unwrap(),
        Vec::<Vec<u8>>::new()
    );

    assert_eq!(
        ssri_udt::codec::split_dynvec(&vec![1, 2]).unwrap_err(),
        Error::MoleculeVerificationError
    );
}

#[test]
fn script_hash_agrees_with_the_chain() {
    let model = Script {
        code_hash: (0u8..32u8).collect(),
        hash_type: 1,
        args: vec![0xde, 0xad, 0xbe, 0xef],
    };
    let packed = packed::Script::new_builder()
        .code_hash(packed::Byte32::from_slice(&model.code_hash).unwrap())
        .hash_type(packed::Byte::new(model.hash_type))
        .args(model.args.pack())
        .build();
    assert_eq!(script_to_molecule(&model), packed.as_slice().to_vec());
    assert_eq!(
        script_hash(&model),
        packed.calc_script_hash().as_slice().to_vec()
    );
}
