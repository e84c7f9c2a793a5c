use vstd::prelude::*;

use crate::balance::bytes_eq;
use crate::error::Error;

verus! {

/// The rich calling convention's method surface, as the string-keyed
/// lookup of the dispatcher names it.
#[derive(Clone, Copy, Debug, PartialEq, Eq, Structural)]
pub enum Method {
    Name,
    Symbol,
    Decimals,
    Icon,
    Transfer,
    Mint,
    Create,
}

/// The call-argument name of each method, as ASCII bytes.
pub open spec fn method_name_bytes(m: Method) -> Seq<u8> {
    match m {
        Method::Name => seq![85u8, 68u8, 84u8, 46u8, 110u8, 97u8, 109u8, 101u8],  // "UDT.name"
        Method::Symbol => seq![85u8, 68u8, 84u8, 46u8, 115u8, 121u8, 109u8, 98u8, 111u8, 108u8],  // "UDT.symbol"
        Method::Decimals => seq![85u8, 68u8, 84u8, 46u8, 100u8, 101u8, 99u8, 105u8, 109u8, 97u8, 108u8, 115u8],  // "UDT.decimals"
        Method::Icon => seq![85u8, 68u8, 84u8, 46u8, 105u8, 99u8, 111u8, 110u8],  // "UDT.icon"
        Method::Transfer => seq![85u8, 68u8, 84u8, 46u8, 116u8, 114u8, 97u8, 110u8, 115u8, 102u8, 101u8, 114u8],  // "UDT.transfer"
        Method::Mint => seq![85u8, 68u8, 84u8, 46u8, 109u8, 105u8, 110u8, 116u8],  // "UDT.mint"
        Method::Create => seq![83u8, 83u8, 82u8, 73u8, 85u8, 68u8, 84u8, 46u8, 99u8, 114u8, 101u8, 97u8, 116u8, 101u8],  // "SSRIUDT.create"
    }
}

/// The method a call argument names, if any.
pub open spec fn spec_method_of(s: Seq<u8>) -> Option<Method> {
    if s == method_name_bytes(Method::Name) {
        Option::Some(Method::Name)
    } else if s == method_name_bytes(Method::Symbol) {
        Option::Some(Method::Symbol)
    } else if s == method_name_bytes(Method::Decimals) {
        Option::Some(Method::Decimals)
    } else if s == method_name_bytes(Method::Icon) {
        Option::Some(Method::Icon)
    } else if s == method_name_bytes(Method::Transfer) {
        Option::Some(Method::Transfer)
    } else if s == method_name_bytes(Method::Mint) {
        Option::Some(Method::Mint)
    } else if s == method_name_bytes(Method::Create) {
        Option::Some(Method::Create)
    } else {
        Option::None
    }
}

/// Looks a method up by its call-argument name: the dispatcher's
/// string-keyed table.
pub fn method_of_name(s: &Vec<u8>) -> (r: Option<Method>)
    ensures
        r == spec_method_of(s@),
{
    let lit_name: Vec<u8> = vec![85u8, 68u8, 84u8, 46u8, 110u8, 97u8, 109u8, 101u8];
    proof {
        assert(lit_name@ =~= method_name_bytes(Method::Name));
    }
    if bytes_eq(s, &lit_name) {
        return Option::Some(Method::Name);
    }
    let lit_symbol: Vec<u8> = vec![85u8, 68u8, 84u8, 46u8, 115u8, 121u8, 109u8, 98u8, 111u8, 108u8];
    proof {
        assert(lit_symbol@ =~= method_name_bytes(Method::Symbol));
    }
    if bytes_eq(s, &lit_symbol) {
        return Option::Some(Method::Symbol);
    }
    let lit_decimals: Vec<u8> = vec![85u8, 68u8, 84u8, 46u8, 100u8, 101u8, 99u8, 105u8, 109u8, 97u8, 108u8, 115u8];
    proof {
        assert(lit_decimals@ =~= method_name_bytes(Method::Decimals));
    }
    if bytes_eq(s, &lit_decimals) {
        return Option::Some(Method::Decimals);
    }
    let lit_icon: Vec<u8> = vec![85u8, 68u8, 84u8, 46u8, 105u8, 99u8, 111u8, 110u8];
    proof {
        assert(lit_icon@ =~= method_name_bytes(Method::Icon));
    }
    if bytes_eq(s, &lit_icon) {
        return Option::Some(Method::Icon);
    }
    let lit_transfer: Vec<u8> = vec![85u8, 68u8, 84u8, 46u8, 116u8, 114u8, 97u8, 110u8, 115u8, 102u8, 101u8, 114u8];
    proof {
        assert(lit_transfer@ =~= method_name_bytes(Method::Transfer));
    }
    if bytes_eq(s, &lit_transfer) {
        return Option::Some(Method::Transfer);
    }
    let lit_mint: Vec<u8> = vec![85u8, 68u8, 84u8, 46u8, 109u8, 105u8, 110u8, 116u8];
    proof {
        assert(lit_mint@ =~= method_name_bytes(Method::Mint));
    }
    if bytes_eq(s, &lit_mint) {
        return Option::Some(Method::Mint);
    }
    let lit_create: Vec<u8> = vec![83u8, 83u8, 82u8, 73u8, 85u8, 68u8, 84u8, 46u8, 99u8, 114u8, 101u8, 97u8, 116u8, 101u8];
    proof {
        assert(lit_create@ =~= method_name_bytes(Method::Create));
    }
    if bytes_eq(s, &lit_create) {
        return Option::Some(Method::Create);
    }
    Option::None
}

/// Validates a rich transfer or mint call's arguments: the policy-list
/// and amount-list arguments must be present and non-empty, and the two
/// decoded lists must have the same length.
pub fn check_rich_call_args(arg2: &Vec<u8>, arg3: &Vec<u8>, n_locks: usize, n_amounts: usize) -> (r:
    Result<(), Error>)
    ensures
        match r {
            Result::Ok(_) => arg2@.len() > 0 && arg3@.len() > 0 && n_locks == n_amounts,
            Result::Err(e) => (arg2@.len() == 0 || arg3@.len() == 0 || n_locks != n_amounts) && e
                == Error::SSRIMethodsArgsInvalid,
        },
{
    if arg2.len() == 0 || arg3.len() == 0 || n_locks != n_amounts {
        Result::Err(Error::SSRIMethodsArgsInvalid)
    } else {
        Result::Ok(())
    }
}

} // verus!
