use vstd::prelude::*;

use crate::types::{Script, ScriptV};

verus! {

/// The well-known code identifier of the type-id policy: twenty-five zero
/// bytes followed by the seven bytes of the ASCII text "TYPE_ID".
pub open spec fn type_id_code_hash_bytes() -> Seq<u8> {
    seq![
        0u8, 0u8, 0u8, 0u8, 0u8, 0u8, 0u8, 0u8, 0u8, 0u8, 0u8, 0u8, 0u8, 0u8, 0u8, 0u8, 0u8, 0u8,
        0u8, 0u8, 0u8, 0u8, 0u8, 0u8, 0u8, 0x54u8, 0x59u8, 0x50u8, 0x45u8, 0x5fu8, 0x49u8, 0x44u8,
    ]
}

/// The hash-kind byte that resolves a code identifier as a type hash.
pub const SCRIPT_HASH_TYPE_TYPE: u8 = 1;

/// The well-known code identifier of the type-id policy, as bytes.
pub fn type_id_code_hash() -> (r: Vec<u8>)
    ensures
        r@ == type_id_code_hash_bytes(),
{
    let r: Vec<u8> = vec![
        0u8, 0u8, 0u8, 0u8, 0u8, 0u8, 0u8, 0u8, 0u8, 0u8, 0u8, 0u8, 0u8, 0u8, 0u8, 0u8, 0u8, 0u8,
        0u8, 0u8, 0u8, 0u8, 0u8, 0u8, 0u8, 0x54u8, 0x59u8, 0x50u8, 0x45u8, 0x5fu8, 0x49u8, 0x44u8,
    ];
    proof {
        assert(r@ =~= type_id_code_hash_bytes());
    }
    r
}

/// The type-id policy that owns a token instance's metadata cell: the
/// well-known code identifier, the type hash-kind, and the given argument.
pub open spec fn type_id_script_v(args: Seq<u8>) -> ScriptV {
    ScriptV { code_hash: type_id_code_hash_bytes(), hash_type: SCRIPT_HASH_TYPE_TYPE, args }
}

/// Builds the type-id policy for the given argument bytes.
pub fn type_id_script(args: &Vec<u8>) -> (r: Script)
    ensures
        r@ == type_id_script_v(args@),
{
    let r = Script {
        code_hash: type_id_code_hash(),
        hash_type: SCRIPT_HASH_TYPE_TYPE,
        args: args.clone(),
    };
    proof {
        assert(r.args@ =~= args@);
    }
    r
}

} // verus!
