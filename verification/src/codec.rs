use vstd::prelude::*;
use vstd::bytes::{
    spec_u128_from_le_bytes, spec_u128_to_le_bytes, spec_u32_from_le_bytes, spec_u32_to_le_bytes,
    lemma_auto_spec_u128_to_from_le_bytes, lemma_auto_spec_u32_to_from_le_bytes, u128_from_le_bytes,
    u128_to_le_bytes, u32_from_le_bytes, u32_to_le_bytes,
};
use vstd::slice::{slice_subrange, slice_to_vec};

use crate::error::Error;
use crate::types::{Script, ScriptV, SSRIMetadata, SSRIMetadataV};

verus! {

// ---------------------------------------------------------------------------
// Small byte-vector helpers
// ---------------------------------------------------------------------------

/// Appends the four little-endian bytes of `v`.
pub(crate) fn append_le4(out: &mut Vec<u8>, v: u32)
    ensures
        final(out)@ == old(out)@ + spec_u32_to_le_bytes(v),
{
    let mut b = u32_to_le_bytes(v);
    out.append(&mut b);
}

/// Appends a copy of `b`.
pub(crate) fn append_copy(out: &mut Vec<u8>, b: &Vec<u8>)
    ensures
        final(out)@ == old(out)@ + b@,
{
    let n = b.len();
    let mut i: usize = 0;
    while i < n
        invariant
            n == b@.len(),
            i <= n,
            out@ == old(out)@ + b@.subrange(0, i as int),
        decreases n - i,
    {
        out.push(b[i]);
        i = i + 1;
        proof {
            assert(old(out)@ + b@.subrange(0, i - 1 as int) + seq![b@[i - 1]] =~= old(out)@
                + b@.subrange(0, i as int));
        }
    }
    proof {
        assert(b@.subrange(0, n as int) =~= b@);
    }
}

// ---------------------------------------------------------------------------
// Amounts: unsigned 128-bit values as exactly 16 little-endian bytes
// ---------------------------------------------------------------------------

/// The number of bytes of an encoded amount.
pub const UDT_LEN: usize = 16;

/// Whether a data payload is a well-formed amount encoding.
pub open spec fn amount_wf(data: Seq<u8>) -> bool {
    data.len() == 16
}

/// The amount a 16-byte payload encodes.
pub open spec fn amount_of(data: Seq<u8>) -> u128 {
    spec_u128_from_le_bytes(data)
}

/// Encodes an amount as its 16 little-endian bytes.
pub fn encode_amount(v: u128) -> (r: Vec<u8>)
    ensures
        r@ == spec_u128_to_le_bytes(v),
        amount_wf(r@),
        amount_of(r@) == v,
{
    proof {
        lemma_auto_spec_u128_to_from_le_bytes();
    }
    u128_to_le_bytes(v)
}

/// Reads the amount a 16-byte payload encodes.
pub fn decode_amount(data: &Vec<u8>) -> (r: u128)
    requires
        amount_wf(data@),
    ensures
        r == amount_of(data@),
        spec_u128_to_le_bytes(r) == data@,
{
    proof {
        lemma_auto_spec_u128_to_from_le_bytes();
    }
    u128_from_le_bytes(data.as_slice())
}

// ---------------------------------------------------------------------------
// Hex-encoded call arguments
// ---------------------------------------------------------------------------

/// The value of one hexadecimal digit, or `None` for any other byte.
pub open spec fn hex_digit(c: u8) -> Option<u8> {
    if 48 <= c <= 57 {
        Option::Some((c - 48) as u8)
    } else if 97 <= c <= 102 {
        Option::Some((c - 87) as u8)
    } else if 65 <= c <= 70 {
        Option::Some((c - 55) as u8)
    } else {
        Option::None
    }
}

/// Whether a byte string is well-formed hex: even length, hex digits only.
pub open spec fn hex_wf(s: Seq<u8>) -> bool {
    &&& s.len() % 2 == 0
    &&& forall|i: int| 0 <= i < s.len() ==> #[trigger] hex_digit(s[i]) is Some
}

/// The bytes a well-formed hex string denotes.
pub open spec fn hex_value(s: Seq<u8>) -> Seq<u8> {
    Seq::new(
        s.len() / 2,
        |i: int| (hex_digit(s[2 * i]).unwrap() * 16 + hex_digit(s[2 * i + 1]).unwrap()) as u8,
    )
}

/// The value of one hexadecimal digit.
fn hex_digit_exec(c: u8) -> (r: Option<u8>)
    ensures
        r == hex_digit(c),
{
    if 48 <= c && c <= 57 {
        Option::Some(c - 48)
    } else if 97 <= c && c <= 102 {
        Option::Some(c - 87)
    } else if 65 <= c && c <= 70 {
        Option::Some(c - 55)
    } else {
        Option::None
    }
}

/// Decodes a hex-encoded call argument.  A string of odd length or with a
/// byte that is no hex digit does not decode.
pub fn decode_hex(s: &Vec<u8>) -> (r: Result<Vec<u8>, Error>)
    ensures
        match r {
            Result::Ok(b) => hex_wf(s@) && b@ == hex_value(s@),
            Result::Err(e) => !hex_wf(s@) && e == Error::MoleculeVerificationError,
        },
{
    let n = s.len();
    if n % 2 != 0 {
        return Result::Err(Error::MoleculeVerificationError);
    }
    let mut out: Vec<u8> = Vec::new();
    let mut i: usize = 0;
    while i < n
        invariant
            n == s@.len(),
            n % 2 == 0,
            i <= n,
            i % 2 == 0,
            forall|j: int| 0 <= j < i ==> #[trigger] hex_digit(s@[j]) is Some,
            out@.len() == i / 2,
            forall|j: int|
                0 <= j < i / 2 ==> out@[j] == (hex_digit(s@[2 * j]).unwrap() * 16 + hex_digit(
                    s@[2 * j + 1],
                ).unwrap()) as u8,
        decreases n - i,
    {
        let hi = hex_digit_exec(s[i]);
        let lo = hex_digit_exec(s[i + 1]);
        match (hi, lo) {
            (Option::Some(h), Option::Some(l)) => {
                out.push(h * 16 + l);
            },
            _ => {
                return Result::Err(Error::MoleculeVerificationError);
            },
        }
        i = i + 2;
    }
    proof {
        assert(out@ =~= hex_value(s@));
    }
    Result::Ok(out)
}

// ---------------------------------------------------------------------------
// Amount lists: a 4-byte count prefix, then consecutive 16-byte amounts
// ---------------------------------------------------------------------------

/// Whether amount-list bytes have the required shape.
pub open spec fn amount_list_wf(b: Seq<u8>) -> bool {
    b.len() >= 4 && (b.len() - 4) % 16 == 0
}

/// The amounts an amount-list payload carries, in order.
pub open spec fn amount_list_value(b: Seq<u8>) -> Seq<u128> {
    Seq::new(
        ((b.len() - 4) / 16) as nat,
        |i: int| spec_u128_from_le_bytes(b.subrange(4 + 16 * i, 20 + 16 * i)),
    )
}

/// Reads an amount list: the four count-prefix bytes are skipped, and the
/// rest is taken as consecutive 16-byte little-endian amounts.
pub fn parse_amount_list(b: &Vec<u8>) -> (r: Vec<u128>)
    requires
        amount_list_wf(b@),
    ensures
        r@ == amount_list_value(b@),
{
    let n = b.len();
    let count = (n - 4) / 16;
    let mut out: Vec<u128> = Vec::new();
    let mut i: usize = 0;
    while i < count
        invariant
            n == b@.len(),
            n >= 4,
            (n - 4) % 16 == 0,
            count == (n - 4) / 16,
            i <= count,
            out@.len() == i,
            forall|j: int|
                0 <= j < i ==> out@[j] == spec_u128_from_le_bytes(
                    b@.subrange(4 + 16 * j, 20 + 16 * j),
                ),
        decreases count - i,
    {
        let chunk = slice_subrange(b.as_slice(), 4 + 16 * i, 20 + 16 * i);
        out.push(u128_from_le_bytes(chunk));
        i = i + 1;
    }
    proof {
        assert(out@ =~= amount_list_value(b@));
    }
    out
}

// ---------------------------------------------------------------------------
// The authorization-policy record: a three-field record in the ledger's
// fixed binary schema (a size header, one offset per field, then the code
// identifier, the hash kind and the length-prefixed argument bytes)
// ---------------------------------------------------------------------------

/// Whether a policy value fits its binary record.
pub open spec fn script_encodable(s: ScriptV) -> bool {
    s.code_hash.len() == 32 && 53 + s.args.len() <= u32::MAX
}

/// The binary record of a policy, as the ledger hashes and compares it.
pub open spec fn encode_script(s: ScriptV) -> Seq<u8> {
    spec_u32_to_le_bytes((53 + s.args.len()) as u32) + spec_u32_to_le_bytes(16u32)
        + spec_u32_to_le_bytes(48u32) + spec_u32_to_le_bytes(49u32) + s.code_hash
        + seq![s.hash_type] + spec_u32_to_le_bytes(s.args.len() as u32) + s.args
}

/// Serializes a policy into its binary record.
pub fn script_to_molecule(s: &Script) -> (r: Vec<u8>)
    requires
        script_encodable(s@),
    ensures
        r@ == encode_script(s@),
{
    let args_len = s.args.len();
    let mut out: Vec<u8> = Vec::new();
    append_le4(&mut out, 53 + args_len as u32);
    append_le4(&mut out, 16);
    append_le4(&mut out, 48);
    append_le4(&mut out, 49);
    append_copy(&mut out, &s.code_hash);
    out.push(s.hash_type);
    append_le4(&mut out, args_len as u32);
    append_copy(&mut out, &s.args);
    proof {
        assert(out@ =~= encode_script(s@));
    }
    out
}

// ---------------------------------------------------------------------------
// The metadata record: a four-field record in the same schema (a size
// header, one offset per field, then the three length-prefixed byte strings
// and the single decimals byte)
// ---------------------------------------------------------------------------

/// A byte-string field: a 4-byte little-endian length, then the bytes.
pub open spec fn bytes_field(b: Seq<u8>) -> Seq<u8> {
    spec_u32_to_le_bytes(b.len() as u32) + b
}

/// Whether a metadata value fits its binary record.
pub open spec fn metadata_encodable(m: SSRIMetadataV) -> bool {
    33 + m.name.len() + m.symbol.len() + m.icon.len() <= u32::MAX
}

/// The binary record of a metadata value: a total size, the four field
/// offsets, then the fields in order.
pub open spec fn encode_metadata(m: SSRIMetadataV) -> Seq<u8> {
    let p0 = bytes_field(m.name);
    let p1 = bytes_field(m.symbol);
    let p2 = seq![m.decimals];
    let p3 = bytes_field(m.icon);
    spec_u32_to_le_bytes((20 + p0.len() + p1.len() + p2.len() + p3.len()) as u32)
        + spec_u32_to_le_bytes(20u32) + spec_u32_to_le_bytes((20 + p0.len()) as u32)
        + spec_u32_to_le_bytes((20 + p0.len() + p1.len()) as u32) + spec_u32_to_le_bytes(
        (20 + p0.len() + p1.len() + p2.len()) as u32,
    ) + p0 + p1 + p2 + p3
}

/// The field offsets a record's header declares, each read from its four
/// little-endian header bytes.
pub open spec fn table_offsets(b: Seq<u8>, count: int) -> Seq<int> {
    Seq::new(count as nat, |i: int| spec_u32_from_le_bytes(b.subrange(4 + 4 * i, 8 + 4 * i)) as int)
}

/// Whether declared offsets descend nowhere and stay within the record.
pub open spec fn offsets_valid(offs: Seq<int>, len: int) -> bool {
    forall|i: int| 1 <= i < offs.len() ==> offs[i - 1] <= #[trigger] offs[i] && offs[i] <= len
}

/// The field slices the offsets carve out of the record; the last field
/// runs to the record's end.
pub open spec fn table_parts(b: Seq<u8>, offs: Seq<int>) -> Seq<Seq<u8>> {
    Seq::new(
        offs.len(),
        |i: int|
            if i == offs.len() - 1 {
                b.subrange(offs[i], b.len() as int)
            } else {
                b.subrange(offs[i], offs[i + 1])
            },
    )
}

/// Splits a record into its fields, or `None` where the header is absent,
/// the declared size disagrees with the bytes, the first offset is no
/// multiple of four or leaves no room for the header, or an offset
/// descends or leaves the record.
pub open spec fn disassemble_table(b: Seq<u8>) -> Option<Seq<Seq<u8>>> {
    if b.len() < 4 {
        Option::None
    } else {
        let total = spec_u32_from_le_bytes(b.subrange(0, 4)) as int;
        if b.len() != total {
            Option::None
        } else if total == 4 {
            Option::Some(Seq::empty())
        } else if total < 8 {
            Option::None
        } else {
            let fo = spec_u32_from_le_bytes(b.subrange(4, 8)) as int;
            if fo % 4 != 0 || fo < 8 || total < fo {
                Option::None
            } else {
                let count = fo / 4 - 1;
                let offs = table_offsets(b, count);
                if offsets_valid(offs, b.len() as int) {
                    Option::Some(table_parts(b, offs))
                } else {
                    Option::None
                }
            }
        }
    }
}

/// Reads a byte-string field back: its length prefix must account for
/// exactly the rest of the field.
pub open spec fn decode_bytes_field(p: Seq<u8>) -> Option<Seq<u8>> {
    if p.len() < 4 {
        Option::None
    } else if spec_u32_from_le_bytes(p.subrange(0, 4)) as int != p.len() - 4 {
        Option::None
    } else {
        Option::Some(p.subrange(4, p.len() as int))
    }
}

/// The metadata value a record denotes, or `None` where the record does
/// not split into at least four fields or a field is malformed.  Fields
/// past the fourth are tolerated and ignored.
pub open spec fn decode_metadata(b: Seq<u8>) -> Option<SSRIMetadataV> {
    match disassemble_table(b) {
        Option::None => Option::None,
        Option::Some(parts) => {
            if parts.len() < 4 {
                Option::None
            } else {
                match (
                    decode_bytes_field(parts[0]),
                    decode_bytes_field(parts[1]),
                    decode_bytes_field(parts[3]),
                ) {
                    (Option::Some(name), Option::Some(symbol), Option::Some(icon)) => {
                        if parts[2].len() == 1 {
                            Option::Some(
                                SSRIMetadataV { name, symbol, decimals: parts[2][0], icon },
                            )
                        } else {
                            Option::None
                        }
                    },
                    _ => Option::None,
                }
            }
        },
    }
}

/// Appends a byte-string field.
fn append_bytes_field(out: &mut Vec<u8>, b: &Vec<u8>)
    requires
        b@.len() <= u32::MAX,
    ensures
        final(out)@ == old(out)@ + bytes_field(b@),
{
    append_le4(out, b.len() as u32);
    append_copy(out, b);
    proof {
        assert(final(out)@ =~= old(out)@ + bytes_field(b@));
    }
}

impl SSRIMetadata {
    /// Serializes the record under its fixed binary schema.
    pub fn to_molecule(&self) -> (r: Vec<u8>)
        requires
            metadata_encodable(self@),
        ensures
            r@ == encode_metadata(self@),
    {
        proof {
            lemma_auto_spec_u32_to_from_le_bytes();
        }
        let n0 = self.name.len();
        let n1 = self.symbol.len();
        let n3 = self.icon.len();
        let total: u32 = 33 + n0 as u32 + n1 as u32 + n3 as u32;
        let mut out: Vec<u8> = Vec::new();
        append_le4(&mut out, total);
        append_le4(&mut out, 20);
        append_le4(&mut out, 24 + n0 as u32);
        append_le4(&mut out, 28 + n0 as u32 + n1 as u32);
        append_le4(&mut out, 29 + n0 as u32 + n1 as u32);
        append_bytes_field(&mut out, &self.name);
        append_bytes_field(&mut out, &self.symbol);
        out.push(self.decimals);
        append_bytes_field(&mut out, &self.icon);
        proof {
            assert(out@ =~= encode_metadata(self@));
        }
        out
    }
}

/// Serializing a metadata record and reading it back yields the same
/// value, for every value that fits its binary record.
pub proof fn lemma_metadata_round_trip(m: SSRIMetadataV)
    requires
        metadata_encodable(m),
    ensures
        decode_metadata(encode_metadata(m)) == Option::Some(m),
{
    lemma_auto_spec_u32_to_from_le_bytes();
    let p0 = bytes_field(m.name);
    let p1 = bytes_field(m.symbol);
    let p2 = seq![m.decimals];
    let p3 = bytes_field(m.icon);
    let off1 = 20 + p0.len() as int;
    let off2 = off1 + p1.len();
    let off3 = off2 + 1;
    let total = off3 + p3.len();
    let b = encode_metadata(m);
    assert(b.len() == total);
    assert(b.subrange(0, 4) =~= spec_u32_to_le_bytes(total as u32));
    assert(spec_u32_from_le_bytes(b.subrange(0, 4)) == total);
    assert(b.subrange(4, 8) =~= spec_u32_to_le_bytes(20u32));
    let count = 20int / 4 - 1;
    let offs = table_offsets(b, count);
    assert(offs =~= seq![20, off1, off2, off3]) by {
        assert(b.subrange(4, 8) =~= spec_u32_to_le_bytes(20u32));
        assert(b.subrange(8, 12) =~= spec_u32_to_le_bytes(off1 as u32));
        assert(b.subrange(12, 16) =~= spec_u32_to_le_bytes(off2 as u32));
        assert(b.subrange(16, 20) =~= spec_u32_to_le_bytes(off3 as u32));
    }
    assert(offsets_valid(offs, total));
    let parts = table_parts(b, offs);
    assert(disassemble_table(b) == Option::Some(parts));
    assert(parts[0] =~= p0);
    assert(parts[1] =~= p1);
    assert(parts[2] =~= p2);
    assert(parts[3] =~= p3);
    assert(p0.subrange(0, 4) =~= spec_u32_to_le_bytes(m.name.len() as u32));
    assert(p0.subrange(4, p0.len() as int) =~= m.name);
    assert(decode_bytes_field(p0) == Option::Some(m.name));
    assert(p1.subrange(0, 4) =~= spec_u32_to_le_bytes(m.symbol.len() as u32));
    assert(p1.subrange(4, p1.len() as int) =~= m.symbol);
    assert(decode_bytes_field(p1) == Option::Some(m.symbol));
    assert(p3.subrange(0, 4) =~= spec_u32_to_le_bytes(m.icon.len() as u32));
    assert(p3.subrange(4, p3.len() as int) =~= m.icon);
    assert(decode_bytes_field(p3) == Option::Some(m.icon));
    assert(decode_metadata(b) == Option::Some(m));
}

/// Reads a byte-string field from a record slice.
fn parse_bytes_part(p: &[u8]) -> (r: Result<Vec<u8>, Error>)
    ensures
        match r {
            Result::Ok(b) => decode_bytes_field(p@) == Option::Some(b@),
            Result::Err(e) => decode_bytes_field(p@) is None && e
                == Error::MoleculeVerificationError,
        },
{
    let n = p.len();
    if n < 4 {
        return Result::Err(Error::MoleculeVerificationError);
    }
    let c = u32_from_le_bytes(slice_subrange(p, 0, 4));
    if c as usize != n - 4 {
        return Result::Err(Error::MoleculeVerificationError);
    }
    Result::Ok(slice_to_vec(slice_subrange(p, 4, n)))
}

/// Splits a record of the fixed binary schema — a table, or a
/// dynamic-size list — into its parts, accepting exactly the payloads
/// whose header, declared size and offsets are consistent.
#[verifier::loop_isolation(false)]
#[verifier::rlimit(100)]
pub fn split_dynvec(data: &Vec<u8>) -> (r: Result<Vec<Vec<u8>>, Error>)
    ensures
        match r {
            Result::Ok(parts) => disassemble_table(data@) == Option::Some(parts.deep_view()),
            Result::Err(e) => disassemble_table(data@) is None && e
                == Error::MoleculeVerificationError,
        },
{
    let n = data.len();
    if n < 4 {
        return Result::Err(Error::MoleculeVerificationError);
    }
    let total = u32_from_le_bytes(slice_subrange(data.as_slice(), 0, 4));
    if total as usize != n {
        return Result::Err(Error::MoleculeVerificationError);
    }
    if n == 4 {
        let empty: Vec<Vec<u8>> = Vec::new();
        proof {
            assert(empty.deep_view() =~= Seq::<Seq<u8>>::empty());
        }
        return Result::Ok(empty);
    }
    if n < 8 {
        return Result::Err(Error::MoleculeVerificationError);
    }
    let fo_u32 = u32_from_le_bytes(slice_subrange(data.as_slice(), 4, 8));
    let fo = fo_u32 as usize;
    if fo % 4 != 0 || fo < 8 || n < fo {
        return Result::Err(Error::MoleculeVerificationError);
    }
    let count = fo / 4 - 1;
    proof {
        assert(fo == 4 * (fo as int / 4)) by (nonlinear_arith)
            requires
                fo as int % 4 == 0,
                fo >= 8,
        ;
    }
    let ghost specoffs = table_offsets(data@, count as int);
    let mut offs: Vec<usize> = Vec::new();
    offs.push(fo);
    let mut i: usize = 1;
    while i < count
        invariant
            4 <= n == data@.len() <= u32::MAX,
            8 <= fo <= n,
            fo == 4 * count + 4,
            1 <= i <= count,
            specoffs == table_offsets(data@, count as int),
            offs@.len() == i,
            forall|j: int| 0 <= j < i ==> offs@[j] == specoffs[j],
            forall|j: int| 1 <= j < i ==> offs@[j - 1] <= #[trigger] offs@[j] && offs@[j] <= n,
            offs@[0] == fo,
        decreases count - i,
    {
        proof {
            assert(8 + 4 * (i as int) <= fo);
        }
        let o_u32 = u32_from_le_bytes(slice_subrange(data.as_slice(), 4 + 4 * i, 8 + 4 * i));
        let o = o_u32 as usize;
        if o < offs[i - 1] || n < o {
            proof {
                assert(specoffs[i as int] == o);
                assert(!offsets_valid(specoffs, n as int));
            }
            return Result::Err(Error::MoleculeVerificationError);
        }
        offs.push(o);
        i = i + 1;
    }
    proof {
        assert(offsets_valid(specoffs, n as int));
        assert(disassemble_table(data@) == Option::Some(table_parts(data@, specoffs)));
        assert(forall|j: int| 1 <= j < count ==> specoffs[j - 1] <= #[trigger] specoffs[j]);
    }
    let ghost parts = table_parts(data@, specoffs);
    let mut out: Vec<Vec<u8>> = Vec::new();
    let mut j: usize = 0;
    while j < count
        invariant
            offs@.len() == count,
            j <= count,
            out@.len() == j,
            forall|k: int| 0 <= k < j ==> out@[k]@ == parts[k],
        decreases count - j,
    {
        let end = if j + 1 < count {
            offs[j + 1]
        } else {
            n
        };
        proof {
            assert(offs@[j as int] <= end <= n);
            assert(parts[j as int] == data@.subrange(offs@[j as int] as int, end as int));
        }
        let piece = slice_to_vec(slice_subrange(data.as_slice(), offs[j], end));
        out.push(piece);
        j = j + 1;
    }
    proof {
        assert(out.deep_view() =~~= parts);
    }
    Result::Ok(out)
}

impl SSRIMetadata {
    /// Deserializes a record, accepting exactly the payloads its schema
    /// admits.
    pub fn from_molecule(data: &Vec<u8>) -> (r: Result<SSRIMetadata, Error>)
        ensures
            match r {
                Result::Ok(m) => decode_metadata(data@) == Option::Some(m@),
                Result::Err(e) => decode_metadata(data@) is None && e
                    == Error::MoleculeVerificationError,
            },
    {
        let parts = match split_dynvec(data) {
            Result::Ok(p) => p,
            Result::Err(e) => {
                return Result::Err(e);
            },
        };
        let ghost pv = parts.deep_view();
        if parts.len() < 4 {
            return Result::Err(Error::MoleculeVerificationError);
        }
        proof {
            assert(pv[0] == parts@[0]@);
            assert(pv[1] == parts@[1]@);
            assert(pv[2] == parts@[2]@);
            assert(pv[3] == parts@[3]@);
        }
        let name = match parse_bytes_part(parts[0].as_slice()) {
            Result::Ok(b) => b,
            Result::Err(e) => {
                return Result::Err(e);
            },
        };
        let symbol = match parse_bytes_part(parts[1].as_slice()) {
            Result::Ok(b) => b,
            Result::Err(e) => {
                return Result::Err(e);
            },
        };
        let icon = match parse_bytes_part(parts[3].as_slice()) {
            Result::Ok(b) => b,
            Result::Err(e) => {
                return Result::Err(e);
            },
        };
        if parts[2].len() != 1 {
            return Result::Err(Error::MoleculeVerificationError);
        }
        let decimals = parts[2][0];
        Result::Ok(SSRIMetadata { name, symbol, decimals, icon })
    }
}

} // verus!
