use ssri_udt::dispatch::{check_rich_call_args, method_of_name, Method};
use ssri_udt::error::Error;

#[test]
fn method_table_resolves_every_method() {
    assert_eq!(method_of_name(&b"UDT.name".to_vec()), Some(Method::Name));
    assert_eq!(method_of_name(&b"UDT.symbol".to_vec()), Some(Method::Symbol));
    assert_eq!(
        method_of_name(&b"UDT.decimals".to_vec()),
        Some(Method::Decimals)
    );
    assert_eq!(method_of_name(&b"UDT.icon".to_vec()), Some(Method::Icon));
    assert_eq!(
        method_of_name(&b"UDT.transfer".to_vec()),
        Some(Method::Transfer)
    );
    assert_eq!(method_of_name(&b"UDT.mint".to_vec()), Some(Method::Mint));
    assert_eq!(
        method_of_name(&b"SSRIUDT.create".to_vec()),
        Some(Method::Create)
    );
}

#[test]
fn unknown_methods_are_not_found() {
    assert_eq!(method_of_name(&b"UDT.pause".to_vec()), None);
    assert_eq!(method_of_name(&b"".to_vec()), None);
    assert_eq!(method_of_name(&b"UDT.namex".to_vec()), None);
}

#[test]
fn rich_call_args_are_validated() {
    let some = b"aa".to_vec();
    let empty = Vec::new();
    assert!(check_rich_call_args(&some, &some, 2, 2).is_ok());
    assert_eq!(
        check_rich_call_args(&empty, &some, 2, 2).unwrap_err(),
        Error::SSRIMethodsArgsInvalid
    );
    assert_eq!(
        check_rich_call_args(&some, &empty, 2, 2).unwrap_err(),
        Error::SSRIMethodsArgsInvalid
    );
    assert_eq!(
        check_rich_call_args(&some, &some, 2, 3).unwrap_err(),
        Error::SSRIMethodsArgsInvalid
    );
}
