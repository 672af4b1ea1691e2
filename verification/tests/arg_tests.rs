use ninja_writer::{Indented, ToArg};

fn accepts_to_arg(val: impl ToArg) -> String {
    val.to_arg()
}

#[test]
fn arg_test_empty() {
    let args: Vec<String> = vec![];
    assert_eq!(args, Vec::<String>::new());
}

#[test]
fn test_single() {
    assert_eq!(vec![1.to_arg()], vec!["1"]);
}

#[test]
fn test_single_trailing() {
    assert_eq!(vec![1.to_arg(),], vec!["1"]);
}

#[test]
fn test_multiple() {
    assert_eq!(vec![1.to_arg(), "foo".to_arg(), true.to_arg()], vec!["1", "foo", "true"]);
}

#[test]
fn test_multiple_trailing() {
    assert_eq!(vec![1.to_arg(), "foo".to_arg(), true.to_arg(),], vec!["1", "foo", "true"]);
}

#[test]
fn test_write_indented() {
    assert_eq!("  foo", Indented("foo").render());
    assert_eq!("  ", Indented("".to_string()).render());
}

#[test]
fn to_arg_strings_and_bools() {
    assert_eq!(accepts_to_arg(String::from("foo")), "foo");
    assert_eq!(accepts_to_arg("foo"), "foo");
    assert_eq!(accepts_to_arg(true), "true");
    assert_eq!(accepts_to_arg(false), "false");
}

#[test]
fn to_arg_unsigned() {
    assert_eq!(accepts_to_arg(0u8), "0");
    assert_eq!(accepts_to_arg(7u16), "7");
    assert_eq!(accepts_to_arg(10u32), "10");
    assert_eq!(accepts_to_arg(99u64), "99");
    assert_eq!(accepts_to_arg(12345usize), "12345");
    assert_eq!(accepts_to_arg(u64::MAX), "18446744073709551615");
    assert_eq!(accepts_to_arg(u128::MAX), "340282366920938463463374607431768211455");
}

#[test]
fn to_arg_signed() {
    assert_eq!(accepts_to_arg(1i8), "1");
    assert_eq!(accepts_to_arg(-1i16), "-1");
    assert_eq!(accepts_to_arg(-128i8), "-128");
    assert_eq!(accepts_to_arg(0i32), "0");
    assert_eq!(accepts_to_arg(-1000000i64), "-1000000");
    assert_eq!(accepts_to_arg(i64::MIN), "-9223372036854775808");
    assert_eq!(accepts_to_arg(i128::MIN), "-170141183460469231731687303715884105728");
    assert_eq!(accepts_to_arg(-42isize), "-42");
}
