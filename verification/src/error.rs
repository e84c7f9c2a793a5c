use vstd::prelude::*;

verus! {

/// The failure conditions of the token validator and builder.
///
/// Every fallible operation of this library reports exactly one of these;
/// nothing is retried or suppressed, and a failure aborts the whole call.
#[derive(Clone, Copy, Debug, PartialEq, Eq, Structural)]
pub enum Error {
    /// A rich call named a method this library does not offer.
    SSRIMethodsNotFound,
    /// A rich call's arguments are missing, empty where required, or of
    /// mismatched lengths.
    SSRIMethodsArgsInvalid,
    /// A binary call argument (a draft, a policy list, a metadata record)
    /// does not decode under its schema.
    MoleculeVerificationError,
    /// A cell's data is not exactly sixteen bytes where an amount is expected.
    Encoding,
    /// The summed input amounts fall short of the summed output amounts.
    InsufficientBalance,
    /// No spent input is owned by the designated owner authorization.
    NoMintPermission,
    /// The singleton metadata record could not be located.
    SSRIConfigNotFound,
    /// The metadata record was located but its payload does not decode.
    SSRIConfigInvalidDataFormat,
    /// A draft offered for creation has no inputs to derive an identity from.
    InvalidTransactionInputs,
    /// The invoking policy's argument is not a 32-byte type-id value.
    InvalidUDTArgs,
}

} // verus!
