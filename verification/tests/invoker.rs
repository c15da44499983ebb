use mun::digits::{format_bool, format_i64, format_u64};
use mun::error::CliError;
use mun::invoke::{
    entry_point_plan, render_value, DecodedValue, FunctionDescriptor, InvokePlan, KnownTokens,
    TypeInfo, TypeToken,
};
use mun::ExitStatus;

fn known() -> KnownTokens {
    KnownTokens {
        boolean: TypeToken { value: 11 },
        float64: TypeToken { value: 22 },
        int64: TypeToken { value: 33 },
    }
}

fn descriptor(ret: Option<TypeInfo>) -> FunctionDescriptor {
    FunctionDescriptor { name: "main".to_string(), arg_types: Vec::new(), ret_type: ret }
}

#[test]
fn missing_entry_point_is_reported() {
    let e = entry_point_plan(&"main".to_string(), None, &known()).unwrap_err();
    assert!(matches!(&e, CliError::EntryPointNotFound { name } if name == "main"));
    assert_eq!(e.message(), "Failed to obtain entry point 'main'");
}

#[test]
fn no_return_type_invokes_without_printing() {
    let d = descriptor(None);
    let plan = entry_point_plan(&"main".to_string(), Some(&d), &known()).unwrap();
    assert_eq!(plan, InvokePlan::NoReturn);
    // The successful invocation of such an entry point prints nothing.
    assert_eq!(render_value(DecodedValue::Unit), None);
}

#[test]
fn allow_list_selects_native_paths() {
    let k = known();
    let b = descriptor(Some(TypeInfo { token: k.boolean, name: "core::bool".to_string() }));
    let f = descriptor(Some(TypeInfo { token: k.float64, name: "core::f64".to_string() }));
    let i = descriptor(Some(TypeInfo { token: k.int64, name: "core::i64".to_string() }));
    let e = "main".to_string();
    assert_eq!(entry_point_plan(&e, Some(&b), &k).unwrap(), InvokePlan::ReturnBool);
    assert_eq!(entry_point_plan(&e, Some(&f), &k).unwrap(), InvokePlan::ReturnFloat64);
    assert_eq!(entry_point_plan(&e, Some(&i), &k).unwrap(), InvokePlan::ReturnInt64);
}

#[test]
fn unsupported_return_type_is_refused_naming_it() {
    let d = descriptor(Some(TypeInfo { token: TypeToken { value: 99 }, name: "Foo".to_string() }));
    let e = entry_point_plan(&"main".to_string(), Some(&d), &known()).unwrap_err();
    assert!(matches!(&e, CliError::UnsupportedReturnType { found } if found == "Foo"));
    assert_eq!(
        e.message(),
        "Only native Mun return types are supported for entry points. Found: Foo"
    );
}

#[test]
fn boolean_true_prints_exactly_true() {
    assert_eq!(render_value(DecodedValue::Boolean(true)).unwrap(), "true");
    assert_eq!(render_value(DecodedValue::Boolean(false)).unwrap(), "false");
    assert_eq!(format_bool(true), "true");
}

#[test]
fn integers_print_in_decimal() {
    assert_eq!(render_value(DecodedValue::Int64(0)).unwrap(), "0");
    assert_eq!(render_value(DecodedValue::Int64(42)).unwrap(), "42");
    assert_eq!(render_value(DecodedValue::Int64(-7)).unwrap(), "-7");
    assert_eq!(render_value(DecodedValue::Int64(i64::MAX)).unwrap(), "9223372036854775807");
    assert_eq!(render_value(DecodedValue::Int64(i64::MIN)).unwrap(), "-9223372036854775808");
    assert_eq!(format_u64(0), "0");
    assert_eq!(format_u64(10), "10");
    assert_eq!(format_u64(u64::MAX), "18446744073709551615");
    assert_eq!(format_i64(-100), "-100");
}

#[test]
fn exit_status_from_outcome() {
    assert_eq!(ExitStatus::from(true), ExitStatus::Success);
    assert_eq!(ExitStatus::from(false), ExitStatus::Error);
    let ok: ExitStatus = true.into();
    assert_eq!(ok, ExitStatus::Success);
}
