use vstd::prelude::*;

verus! {

/// An authorization policy: a code identifier, a hash kind, and argument
/// bytes.  It names either a spending rule (a lock) or an asset identity
/// (a type).  Two policies are the same policy iff all three fields match
/// byte for byte.
#[derive(Debug)]
pub struct Script {
    pub code_hash: Vec<u8>,
    pub hash_type: u8,
    pub args: Vec<u8>,
}

/// The mathematical value of a `Script`.
#[verifier::ext_equal]
pub struct ScriptV {
    pub code_hash: Seq<u8>,
    pub hash_type: u8,
    pub args: Seq<u8>,
}

impl View for Script {
    type V = ScriptV;

    open spec fn view(&self) -> ScriptV {
        ScriptV { code_hash: self.code_hash@, hash_type: self.hash_type, args: self.args@ }
    }
}

impl Clone for Script {
    fn clone(&self) -> (r: Self)
        ensures
            r@ == self@,
    {
        let r = Script {
            code_hash: self.code_hash.clone(),
            hash_type: self.hash_type,
            args: self.args.clone(),
        };
        proof {
            assert(r.code_hash@ =~= self.code_hash@);
            assert(r.args@ =~= self.args@);
        }
        r
    }
}

/// A ledger cell: a capacity, an owning authorization policy, and an
/// optional type authorization policy.  Its data payload travels separately,
/// in the same order, wherever cells are listed.
#[derive(Debug)]
pub struct CellOutput {
    pub capacity: u64,
    pub lock: Script,
    pub type_: Option<Script>,
}

/// The mathematical value of a `CellOutput`.
#[verifier::ext_equal]
pub struct CellOutputV {
    pub capacity: u64,
    pub lock: ScriptV,
    pub type_: Option<ScriptV>,
}

impl View for CellOutput {
    type V = CellOutputV;

    open spec fn view(&self) -> CellOutputV {
        CellOutputV {
            capacity: self.capacity,
            lock: self.lock@,
            type_: match self.type_ {
                Option::Some(s) => Option::Some(s@),
                Option::None => Option::None,
            },
        }
    }
}

impl Clone for CellOutput {
    fn clone(&self) -> (r: Self)
        ensures
            r@ == self@,
    {
        CellOutput {
            capacity: self.capacity,
            lock: self.lock.clone(),
            type_: match &self.type_ {
                Option::Some(s) => Option::Some(s.clone()),
                Option::None => Option::None,
            },
        }
    }
}

/// A cell paired with its data payload, as a search over a transaction's
/// cell dependencies or outputs sees it.
#[derive(Debug)]
pub struct CellData {
    pub cell: CellOutput,
    pub data: Vec<u8>,
}

/// The mathematical value of a `CellData`.
#[verifier::ext_equal]
pub struct CellDataV {
    pub cell: CellOutputV,
    pub data: Seq<u8>,
}

impl View for CellData {
    type V = CellDataV;

    open spec fn view(&self) -> CellDataV {
        CellDataV { cell: self.cell@, data: self.data@ }
    }
}

impl Clone for CellData {
    fn clone(&self) -> (r: Self)
        ensures
            r@ == self@,
    {
        let r = CellData { cell: self.cell.clone(), data: self.data.clone() };
        proof {
            assert(r.data@ =~= self.data@);
        }
        r
    }
}

/// A cell dependency: the location of an existing cell that a finished
/// transaction asks validators to read.  The location bytes are opaque here.
#[derive(Debug)]
pub struct CellDep {
    pub out_point: Vec<u8>,
    pub dep_type: u8,
}

/// The mathematical value of a `CellDep`.
#[verifier::ext_equal]
pub struct CellDepV {
    pub out_point: Seq<u8>,
    pub dep_type: u8,
}

impl View for CellDep {
    type V = CellDepV;

    open spec fn view(&self) -> CellDepV {
        CellDepV { out_point: self.out_point@, dep_type: self.dep_type }
    }
}

impl Clone for CellDep {
    fn clone(&self) -> (r: Self)
        ensures
            r@ == self@,
    {
        let r = CellDep { out_point: self.out_point.clone(), dep_type: self.dep_type };
        proof {
            assert(r.out_point@ =~= self.out_point@);
        }
        r
    }
}

/// A transaction draft: an immutable value that builder steps extend.
/// Inputs, header dependencies and witnesses are opaque byte payloads;
/// outputs and their data travel in the same order.
#[derive(Debug)]
pub struct Transaction {
    pub version: u32,
    pub cell_deps: Vec<CellDep>,
    pub header_deps: Vec<Vec<u8>>,
    pub inputs: Vec<Vec<u8>>,
    pub outputs: Vec<CellOutput>,
    pub outputs_data: Vec<Vec<u8>>,
    pub witnesses: Vec<Vec<u8>>,
}

/// The mathematical value of a `Transaction`.
#[verifier::ext_equal]
pub struct TransactionV {
    pub version: u32,
    pub cell_deps: Seq<CellDepV>,
    pub header_deps: Seq<Seq<u8>>,
    pub inputs: Seq<Seq<u8>>,
    pub outputs: Seq<CellOutputV>,
    pub outputs_data: Seq<Seq<u8>>,
    pub witnesses: Seq<Seq<u8>>,
}

impl View for Transaction {
    type V = TransactionV;

    open spec fn view(&self) -> TransactionV {
        TransactionV {
            version: self.version,
            cell_deps: self.cell_deps@.map_values(|d: CellDep| d@),
            header_deps: self.header_deps.deep_view(),
            inputs: self.inputs.deep_view(),
            outputs: self.outputs@.map_values(|c: CellOutput| c@),
            outputs_data: self.outputs_data.deep_view(),
            witnesses: self.witnesses.deep_view(),
        }
    }
}

impl TransactionV {
    /// A draft is well formed when every output has exactly one data entry.
    pub open spec fn wf(self) -> bool {
        self.outputs.len() == self.outputs_data.len()
    }

    /// The value of the empty draft that a fresh build starts from.
    pub open spec fn empty() -> TransactionV {
        TransactionV {
            version: 0,
            cell_deps: Seq::empty(),
            header_deps: Seq::empty(),
            inputs: Seq::empty(),
            outputs: Seq::empty(),
            outputs_data: Seq::empty(),
            witnesses: Seq::empty(),
        }
    }
}

impl Transaction {
    /// A fresh draft with every field at its empty default.
    pub fn new_default() -> (r: Transaction)
        ensures
            r@ == TransactionV::empty(),
    {
        let r = Transaction {
            version: 0,
            cell_deps: Vec::new(),
            header_deps: Vec::new(),
            inputs: Vec::new(),
            outputs: Vec::new(),
            outputs_data: Vec::new(),
            witnesses: Vec::new(),
        };
        proof {
            assert(r@.cell_deps =~= TransactionV::empty().cell_deps);
            assert(r@.header_deps =~= TransactionV::empty().header_deps);
            assert(r@.inputs =~= TransactionV::empty().inputs);
            assert(r@.outputs =~= TransactionV::empty().outputs);
            assert(r@.outputs_data =~= TransactionV::empty().outputs_data);
            assert(r@.witnesses =~= TransactionV::empty().witnesses);
        }
        r
    }
}

/// The token metadata record: a name, a symbol, a decimal count and an
/// icon reference.  The string fields are byte strings, exactly as the
/// persisted record stores them.
#[derive(Debug)]
pub struct SSRIMetadata {
    pub name: Vec<u8>,
    pub symbol: Vec<u8>,
    pub decimals: u8,
    pub icon: Vec<u8>,
}

/// The mathematical value of an `SSRIMetadata`.
#[verifier::ext_equal]
pub struct SSRIMetadataV {
    pub name: Seq<u8>,
    pub symbol: Seq<u8>,
    pub decimals: u8,
    pub icon: Seq<u8>,
}

impl View for SSRIMetadata {
    type V = SSRIMetadataV;

    open spec fn view(&self) -> SSRIMetadataV {
        SSRIMetadataV {
            name: self.name@,
            symbol: self.symbol@,
            decimals: self.decimals,
            icon: self.icon@,
        }
    }
}

impl Clone for SSRIMetadata {
    fn clone(&self) -> (r: Self)
        ensures
            r@ == self@,
    {
        let r = SSRIMetadata {
            name: self.name.clone(),
            symbol: self.symbol.clone(),
            decimals: self.decimals,
            icon: self.icon.clone(),
        };
        proof {
            assert(r.name@ =~= self.name@);
            assert(r.symbol@ =~= self.symbol@);
            assert(r.icon@ =~= self.icon@);
        }
        r
    }
}

} // verus!
