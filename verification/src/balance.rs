use vstd::prelude::*;

use crate::codec::{amount_of, amount_wf, decode_amount, UDT_LEN};
use crate::error::Error;

verus! {

/// Whether every data payload in a group is a well-formed amount.
pub open spec fn amounts_wf(datas: Seq<Seq<u8>>) -> bool {
    forall|i: int| 0 <= i < datas.len() ==> amount_wf(#[trigger] datas[i])
}

/// The total amount a group of data payloads carries.
pub open spec fn sum_amounts(datas: Seq<Seq<u8>>) -> int
    decreases datas.len(),
{
    if datas.len() == 0 {
        0
    } else {
        sum_amounts(datas.drop_last()) + amount_of(datas.last())
    }
}

/// A total of amounts is never negative.
pub proof fn lemma_sum_amounts_nonneg(datas: Seq<Seq<u8>>)
    ensures
        sum_amounts(datas) >= 0,
    decreases datas.len(),
{
    if datas.len() > 0 {
        lemma_sum_amounts_nonneg(datas.drop_last());
    }
}

/// A total of amounts splits at any index into the prefix total and the
/// suffix total.
pub proof fn lemma_sum_amounts_split(datas: Seq<Seq<u8>>, i: int)
    requires
        0 <= i <= datas.len(),
    ensures
        sum_amounts(datas) == sum_amounts(datas.take(i)) + sum_amounts(datas.skip(i)),
    decreases datas.len(),
{
    if i == datas.len() {
        assert(datas.take(i) =~= datas);
        assert(datas.skip(i) =~= Seq::<Seq<u8>>::empty());
    } else {
        let d = datas.drop_last();
        lemma_sum_amounts_split(d, i);
        assert(datas.take(i) =~= d.take(i));
        assert(datas.skip(i).drop_last() =~= d.skip(i));
        assert(datas.skip(i).last() == datas.last());
        assert(datas.skip(i).len() > 0);
    }
}

/// Sums a group's amounts: every payload must be exactly sixteen bytes,
/// else the group is malformed and nothing is summed.
pub(crate) fn sum_udt_amounts(datas: &Vec<Vec<u8>>) -> (r: Result<u128, Error>)
    requires
        amounts_wf(datas.deep_view()) ==> sum_amounts(datas.deep_view()) <= u128::MAX,
    ensures
        match r {
            Result::Ok(s) => amounts_wf(datas.deep_view()) && s == sum_amounts(datas.deep_view()),
            Result::Err(e) => !amounts_wf(datas.deep_view()) && e == Error::Encoding,
        },
{
    let ghost dv = datas.deep_view();
    let n = datas.len();
    proof {
        assert(dv.len() == n);
    }
    let mut i: usize = 0;
    while i < n
        invariant
            n == datas@.len(),
            dv == datas.deep_view(),
            dv.len() == n,
            i <= n,
            forall|j: int| 0 <= j < i ==> amount_wf(#[trigger] dv[j]),
        decreases n - i,
    {
        if datas[i].len() != UDT_LEN {
            proof {
                assert(dv[i as int] == datas@[i as int]@);
                assert(!amount_wf(dv[i as int]));
            }
            return Result::Err(Error::Encoding);
        }
        proof {
            assert(dv[i as int] == datas@[i as int]@);
        }
        i = i + 1;
    }
    proof {
        assert(amounts_wf(dv));
        lemma_sum_amounts_nonneg(dv);
    }
    let mut acc: u128 = 0;
    let mut i: usize = 0;
    while i < n
        invariant
            n == datas@.len(),
            dv == datas.deep_view(),
            dv.len() == n,
            i <= n,
            amounts_wf(dv),
            sum_amounts(dv) <= u128::MAX,
            acc == sum_amounts(dv.take(i as int)),
        decreases n - i,
    {
        proof {
            assert(dv[i as int] == datas@[i as int]@);
            lemma_sum_amounts_split(dv, i + 1);
            lemma_sum_amounts_nonneg(dv.skip(i + 1));
            assert(dv.take(i + 1).drop_last() =~= dv.take(i as int));
            assert(dv.take(i + 1).last() == dv[i as int]);
            assert(sum_amounts(dv.take(i + 1)) <= sum_amounts(dv));
        }
        let a = decode_amount(&datas[i]);
        acc = acc + a;
        i = i + 1;
    }
    proof {
        assert(dv.take(n as int) =~= dv);
    }
    Result::Ok(acc)
}

/// Sums the token amounts of the invoking token's input cells, given their
/// data payloads in order.
pub fn collect_inputs_amount(datas: &Vec<Vec<u8>>) -> (r: Result<u128, Error>)
    requires
        amounts_wf(datas.deep_view()) ==> sum_amounts(datas.deep_view()) <= u128::MAX,
    ensures
        match r {
            Result::Ok(s) => amounts_wf(datas.deep_view()) && s == sum_amounts(datas.deep_view()),
            Result::Err(e) => !amounts_wf(datas.deep_view()) && e == Error::Encoding,
        },
{
    sum_udt_amounts(datas)
}

/// Sums the token amounts of the invoking token's output cells, given
/// their data payloads in order.
pub fn collect_outputs_amount(datas: &Vec<Vec<u8>>) -> (r: Result<u128, Error>)
    requires
        amounts_wf(datas.deep_view()) ==> sum_amounts(datas.deep_view()) <= u128::MAX,
    ensures
        match r {
            Result::Ok(s) => amounts_wf(datas.deep_view()) && s == sum_amounts(datas.deep_view()),
            Result::Err(e) => !amounts_wf(datas.deep_view()) && e == Error::Encoding,
        },
{
    sum_udt_amounts(datas)
}

/// Whether two byte strings are equal.
pub fn bytes_eq(a: &Vec<u8>, b: &Vec<u8>) -> (r: bool)
    ensures
        r == (a@ == b@),
{
    let n = a.len();
    if n != b.len() {
        assert(a@ != b@);
        return false;
    }
    let mut i: usize = 0;
    while i < n
        invariant
            n == a@.len() == b@.len(),
            i <= n,
            forall|j: int| 0 <= j < i ==> a@[j] == b@[j],
        decreases n - i,
    {
        if a[i] != b[i] {
            return false;
        }
        i = i + 1;
    }
    proof {
        assert(a@ =~= b@);
    }
    true
}

/// Whether a designated owner hash occurs among the spent inputs' owning
/// authorization hashes.
pub open spec fn owner_present(owner: Seq<u8>, hashes: Seq<Seq<u8>>) -> bool {
    exists|i: int| 0 <= i < hashes.len() && #[trigger] hashes[i] == owner
}

/// Scans the spent inputs' owning-authorization hashes and reports whether
/// at least one matches the designated owner hash exactly.
pub fn check_owner_mode(owner_lockhash: &Vec<u8>, input_lock_hashes: &Vec<Vec<u8>>) -> (r: bool)
    ensures
        r == owner_present(owner_lockhash@, input_lock_hashes.deep_view()),
{
    let ghost hv = input_lock_hashes.deep_view();
    let n = input_lock_hashes.len();
    let mut i: usize = 0;
    while i < n
        invariant
            n == input_lock_hashes@.len(),
            hv == input_lock_hashes.deep_view(),
            hv.len() == n,
            i <= n,
            forall|j: int| 0 <= j < i ==> #[trigger] hv[j] != owner_lockhash@,
        decreases n - i,
    {
        proof {
            assert(hv[i as int] == input_lock_hashes@[i as int]@);
        }
        if bytes_eq(&input_lock_hashes[i], owner_lockhash) {
            return true;
        }
        i = i + 1;
    }
    false
}

} // verus!
