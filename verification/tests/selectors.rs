use netidx_excel::bus::BusValue;
use netidx_excel::rtd::{
    convert_for_set, net_get_args, net_get_outcome, net_set_convert, net_set_result,
    parse_selector, xltype_name, NetSetType, SetOutcome,
};
use netidx_excel::xloper12::{Ownership, XLOper12, XLType, XlVal, XLERR_NA};

fn num(v: f64) -> XLOper12 {
    XLOper12 { own: Ownership::Static, val: XlVal::Num(v.to_bits()) }
}

#[test]
fn selector_grammar() {
    assert_eq!(parse_selector(None), Some(NetSetType::Auto));
    assert_eq!(parse_selector(Some("")), Some(NetSetType::Auto));
    assert_eq!(parse_selector(Some("auto")), Some(NetSetType::Auto));
    assert_eq!(parse_selector(Some("f64")), Some(NetSetType::F64));
    assert_eq!(parse_selector(Some("i64")), Some(NetSetType::I64));
    assert_eq!(parse_selector(Some("null")), Some(NetSetType::Null));
    assert_eq!(parse_selector(Some("time")), Some(NetSetType::Time));
    assert_eq!(parse_selector(Some("string")), Some(NetSetType::Text));
    assert_eq!(parse_selector(Some("bool")), Some(NetSetType::Bool));
}

#[test]
fn unrecognized_selectors_are_errors() {
    assert_eq!(parse_selector(Some("F64")), None);
    assert_eq!(parse_selector(Some("banana")), None);
    assert_eq!(parse_selector(Some("auto ")), None);
}

#[test]
fn f64_selector_on_number_and_text() {
    assert_eq!(
        convert_for_set(NetSetType::F64, &num(2.5)),
        SetOutcome::Ready(BusValue::F64(2.5f64.to_bits()))
    );
    let s = XLOper12::from_utf8("nope".as_bytes());
    assert_eq!(
        convert_for_set(NetSetType::F64, &s),
        SetOutcome::Ready(BusValue::Error(String::from("#TYPE!")))
    );
}

#[test]
fn i64_selector_truncates() {
    assert_eq!(
        convert_for_set(NetSetType::I64, &num(7.9)),
        SetOutcome::Ready(BusValue::I64(7))
    );
    assert_eq!(
        convert_for_set(NetSetType::I64, &XLOper12::missing()),
        SetOutcome::Ready(BusValue::Error(String::from("#TYPE!")))
    );
}

#[test]
fn null_selector_ignores_the_value() {
    assert_eq!(
        convert_for_set(NetSetType::Null, &num(1.0)),
        SetOutcome::Ready(BusValue::Null)
    );
}

#[test]
fn bool_selector() {
    assert_eq!(
        convert_for_set(NetSetType::Bool, &XLOper12::from_i32(0)),
        SetOutcome::Ready(BusValue::Bool(false))
    );
    assert_eq!(
        convert_for_set(NetSetType::Bool, &XLOper12::empty()),
        SetOutcome::Ready(BusValue::Error(String::from("#TYPE!")))
    );
}

#[test]
fn string_selector_hands_numbers_to_the_rim() {
    assert_eq!(
        convert_for_set(NetSetType::Text, &num(3.14)),
        SetOutcome::NeedNumText(3.14f64.to_bits())
    );
    let s = XLOper12::from_utf8("hello".as_bytes());
    assert_eq!(
        convert_for_set(NetSetType::Text, &s),
        SetOutcome::Ready(BusValue::Text(String::from("hello")))
    );
}

#[test]
fn time_selector_splits_at_the_rim() {
    assert_eq!(
        convert_for_set(NetSetType::Time, &num(45000.5)),
        SetOutcome::NeedSerialMs(45000.5f64.to_bits())
    );
    assert_eq!(
        convert_for_set(NetSetType::Time, &num(-1.0)),
        SetOutcome::Ready(BusValue::Error(String::from("#VALUE!")))
    );
    assert_eq!(
        convert_for_set(NetSetType::Time, &XLOper12::missing()),
        SetOutcome::Ready(BusValue::Error(String::from("#TYPE!")))
    );
}

#[test]
fn auto_selector_uses_the_total_mapping() {
    assert_eq!(
        convert_for_set(NetSetType::Auto, &XLOper12::empty()),
        SetOutcome::Ready(BusValue::Null)
    );
    assert_eq!(
        convert_for_set(NetSetType::Auto, &XLOper12::from_bool(true)),
        SetOutcome::Ready(BusValue::Bool(true))
    );
}

#[test]
fn net_set_convert_combines_parse_and_apply() {
    assert_eq!(net_set_convert(Some("nonsense"), &num(1.0)), None);
    assert_eq!(
        net_set_convert(Some("f64"), &num(1.5)),
        Some(SetOutcome::Ready(BusValue::F64(1.5f64.to_bits())))
    );
    assert_eq!(
        net_set_convert(None, &XLOper12::from_i32(4)),
        Some(SetOutcome::Ready(BusValue::I64(4)))
    );
}

#[test]
fn get_args_name_the_server_class() {
    let path = XLOper12::from_utf8("/a/b".as_bytes());
    let args = net_get_args(path);
    assert_eq!(args.len(), 3);
    match &args[0].val {
        XlVal::Str(buf) => {
            let expected: Vec<u16> = "NetidxRTD".encode_utf16().collect();
            assert_eq!(buf[0] as usize, expected.len());
            assert_eq!(&buf[1..], expected.as_slice());
        }
        _ => panic!("class name is not a string cell"),
    }
    assert!(matches!(args[1].val, XlVal::Missing));
    assert!(matches!(args[2].val, XlVal::Str(_)));
}

#[test]
fn get_outcome_transfers_ownership_on_success() {
    let res = XLOper12::from_utf8("v".as_bytes());
    let out = net_get_outcome(0, res);
    assert_eq!(out.own, Ownership::Xl);
    let bad = net_get_outcome(1, XLOper12::empty());
    assert!(bad.is_err(XLERR_NA));
}

#[test]
fn set_result_sentinels() {
    let ok = net_set_result(true);
    match &ok.val {
        XlVal::Str(buf) => {
            let expected: Vec<u16> = "#SET".encode_utf16().collect();
            assert_eq!(&buf[1..], expected.as_slice());
        }
        _ => panic!("success sentinel is not a string cell"),
    }
    assert!(net_set_result(false).is_err(XLERR_NA));
}

#[test]
fn type_names_match_the_tag_names() {
    assert_eq!(xltype_name(XLType::Num), "Num");
    assert_eq!(xltype_name(XLType::Error), "Err");
    assert_eq!(xltype_name(XLType::Unknown(512)), "Unknown(512)");
}
