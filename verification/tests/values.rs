use netidx_excel::bus::BusValue;
use netidx_excel::conv::{ConversionError, TextValue, ToStringError};
use netidx_excel::ieee;
use netidx_excel::xloper12::{
    tag_of_xltype, xltype_of_tag, FreeAction, Ownership, SRefData, XLOper12, XLType, XlErr,
    XlMulti, XlVal, XLBIT_DLLFREE, XLBIT_XLFREE, XLERR_NA, XLERR_VALUE, XLTYPE_STR,
};

fn num(v: f64) -> XLOper12 {
    XLOper12 { own: Ownership::Static, val: XlVal::Num(v.to_bits()) }
}

fn text_cell(s: &str) -> XLOper12 {
    XLOper12::from_utf8(s.as_bytes())
}

#[test]
fn finite_number_round_trips_to_bus() {
    let v = XLOper12::from_f64_bits(3.14f64.to_bits());
    assert_eq!(v.xltype(), XLType::Num);
    assert_eq!(v.to_bus(), BusValue::F64(3.14f64.to_bits()));
}

#[test]
fn negative_zero_keeps_its_pattern() {
    let v = XLOper12::from_f64_bits((-0.0f64).to_bits());
    assert_eq!(v.to_bus(), BusValue::F64((-0.0f64).to_bits()));
}

#[test]
fn nan_becomes_na_error_cell() {
    let v = XLOper12::from_f64_bits(f64::NAN.to_bits());
    assert_eq!(v.xltype(), XLType::Error);
    assert!(v.is_err(XLERR_NA));
}

#[test]
fn infinity_becomes_na_error_cell() {
    let v = XLOper12::from_f64_bits(f64::INFINITY.to_bits());
    assert!(v.is_err(XLERR_NA));
    let v = XLOper12::from_f64_bits(f64::NEG_INFINITY.to_bits());
    assert!(v.is_err(XLERR_NA));
}

#[test]
fn int_coerces_to_exact_double() {
    assert_eq!(XLOper12::from_i32(7).to_f64_bits(), Ok(7.0f64.to_bits()));
    assert_eq!(XLOper12::from_i32(-3).to_f64_bits(), Ok((-3.0f64).to_bits()));
    assert_eq!(XLOper12::from_i32(0).to_f64_bits(), Ok(0.0f64.to_bits()));
    assert_eq!(
        XLOper12::from_i32(i32::MAX).to_f64_bits(),
        Ok((i32::MAX as f64).to_bits())
    );
    assert_eq!(
        XLOper12::from_i32(i32::MIN).to_f64_bits(),
        Ok((i32::MIN as f64).to_bits())
    );
}

#[test]
fn number_truncates_toward_zero() {
    assert_eq!(num(3.99).to_i64(), Ok(3));
    assert_eq!(num(-3.99).to_i64(), Ok(-3));
    assert_eq!(num(0.49).to_i64(), Ok(0));
    assert_eq!(num(f64::NAN).to_i64(), Ok(0));
    assert_eq!(num(1.0e300).to_i64(), Ok(i64::MAX));
    assert_eq!(num(-1.0e300).to_i64(), Ok(i64::MIN));
    assert_eq!(num(9.223372036854776e18).to_i64(), Ok(i64::MAX));
}

#[test]
fn bool_readings() {
    assert_eq!(num(0.0).to_bool(), Ok(false));
    assert_eq!(num(-0.0).to_bool(), Ok(false));
    assert_eq!(num(0.25).to_bool(), Ok(true));
    assert_eq!(num(f64::NAN).to_bool(), Ok(true));
    assert_eq!(XLOper12::from_i32(0).to_bool(), Ok(false));
    assert_eq!(XLOper12::from_i32(5).to_bool(), Ok(true));
    assert_eq!(XLOper12::from_bool(true).to_bool(), Ok(true));
    assert_eq!(XLOper12::from_bool(false).to_bool(), Ok(false));
}

#[test]
fn strings_do_not_coerce_to_scalars() {
    let s = text_cell("12");
    assert_eq!(s.to_f64_bits(), Err(ConversionError::TypeMismatch));
    assert_eq!(s.to_i64(), Err(ConversionError::TypeMismatch));
    assert_eq!(s.to_bool(), Err(ConversionError::TypeMismatch));
}

#[test]
fn text_readings() {
    match XLOper12::from_i32(-42).to_text() {
        Ok(TextValue::Ready(s)) => assert_eq!(s, "-42"),
        other => panic!("unexpected: {:?}", other),
    }
    match XLOper12::from_bool(true).to_text() {
        Ok(TextValue::Ready(s)) => assert_eq!(s, "true"),
        other => panic!("unexpected: {:?}", other),
    }
    assert_eq!(
        num(2.5).to_text(),
        Ok(TextValue::FromNum(2.5f64.to_bits()))
    );
    match XLOper12::missing().to_text() {
        Err(ToStringError::InvalidType(XLType::Missing)) => {}
        other => panic!("unexpected: {:?}", other),
    }
}

#[test]
fn text_cell_round_trips_to_bus() {
    let v = text_cell("hello");
    assert_eq!(v.to_bus(), BusValue::Text(String::from("hello")));
}

#[test]
fn error_cell_maps_to_marker_text() {
    let v = XLOper12::error(XlErr::Value);
    assert_eq!(v.to_bus(), BusValue::Error(String::from("#VALUE!")));
    let div = XLOper12::error(XlErr::Div0);
    assert_eq!(div.to_bus(), BusValue::Error(String::from("#DIV/0!")));
    let odd = XLOper12 { own: Ownership::Static, val: XlVal::Error(77) };
    assert_eq!(odd.to_bus(), BusValue::Error(String::from("#ERR77")));
}

#[test]
fn nil_and_missing_map_to_null() {
    assert_eq!(XLOper12::empty().to_bus(), BusValue::Null);
    assert_eq!(XLOper12::missing().to_bus(), BusValue::Null);
}

#[test]
fn unsupported_kinds_map_to_markers() {
    let v = XLOper12 { own: Ownership::Static, val: XlVal::Unknown(999) };
    assert_eq!(v.to_bus(), BusValue::Error(String::from("#UNKNOWN999")));
    let v = XLOper12 { own: Ownership::Static, val: XlVal::BigData };
    assert_eq!(v.to_bus(), BusValue::Error(String::from("#UNSUPPORTED_BIGDATA")));
}

#[test]
fn multi_coerces_through_top_left() {
    let m = XLOper12 {
        own: Ownership::Static,
        val: XlVal::Multi(XlMulti {
            rows: 2,
            columns: 1,
            elems: vec![num(8.5), XLOper12::from_i32(3)],
        }),
    };
    assert_eq!(m.to_f64_bits(), Ok(8.5f64.to_bits()));
    assert_eq!(m.to_i64(), Ok(8));
    assert_eq!(m.to_bus(), BusValue::F64(8.5f64.to_bits()));
}

#[test]
fn invalid_utf16_payload_reports_error() {
    let v = XLOper12 { own: Ownership::Static, val: XlVal::Str(vec![1u16, 0xd800]) };
    match v.to_bus() {
        BusValue::Error(_) => {}
        other => panic!("unexpected: {:?}", other),
    }
    match v.to_text() {
        Err(ToStringError::Utf16Error(_)) => {}
        other => panic!("unexpected: {:?}", other),
    }
}

#[test]
fn destroying_host_owned_frees_nothing_locally() {
    let v = XLOper12 { own: Ownership::Xl, val: XlVal::Str(vec![1u16, 97]) };
    assert_eq!(v.destroy(), FreeAction::AskHost);
}

#[test]
fn destroying_local_string_frees_it_once() {
    let v = text_cell("abc");
    assert_eq!(v.own, Ownership::Dll);
    assert_eq!(v.destroy(), FreeAction::FreeStr);
}

#[test]
fn destroying_local_multi_frees_the_array() {
    let m = XLOper12 {
        own: Ownership::Dll,
        val: XlVal::Multi(XlMulti { rows: 1, columns: 1, elems: vec![num(1.0)] }),
    };
    assert_eq!(m.destroy(), FreeAction::FreeMulti);
}

#[test]
fn destroying_static_payload_is_a_no_op() {
    assert_eq!(XLOper12::empty().destroy(), FreeAction::Nothing);
    assert_eq!(num(1.5).destroy(), FreeAction::Nothing);
}

#[test]
fn deep_copy_retags_and_duplicates() {
    let host = XLOper12 { own: Ownership::Xl, val: XlVal::Str(vec![2u16, 104, 105]) };
    let copy = host.take_local_ownership();
    assert_eq!(copy.own, Ownership::Dll);
    match (&host.val, &copy.val) {
        (XlVal::Str(a), XlVal::Str(b)) => assert_eq!(a, b),
        _ => panic!("payload kind changed"),
    }
}

#[test]
fn into_externally_owned_hands_over_the_buffer() {
    let v = text_cell("x").into_externally_owned();
    assert_eq!(v.own, Ownership::Xl);
    assert_eq!(v.destroy(), FreeAction::AskHost);
}

#[test]
fn nonfinite_checks_on_bits() {
    assert!(ieee::is_nan_or_inf(f64::NAN.to_bits()));
    assert!(ieee::is_nan_or_inf(f64::INFINITY.to_bits()));
    assert!(!ieee::is_nan_or_inf(1.0f64.to_bits()));
    assert!(ieee::is_below_zero((-0.5f64).to_bits()));
    assert!(!ieee::is_below_zero((-0.0f64).to_bits()));
    assert!(!ieee::is_below_zero(f64::NAN.to_bits()));
    assert!(ieee::is_below_zero(f64::NEG_INFINITY.to_bits()));
    assert_eq!(ieee::ONE_BITS, 1.0f64.to_bits());
    assert_eq!(ieee::SERIAL_59_BITS, 59.0f64.to_bits());
}

#[test]
fn string_cell_is_length_prefixed() {
    let v = text_cell("hi");
    match &v.val {
        XlVal::Str(buf) => {
            assert_eq!(buf.len(), 3);
            assert_eq!(buf[0], 2);
            assert_eq!(&buf[1..], &[104u16, 105u16]);
        }
        _ => panic!("not a string cell"),
    }
}

#[test]
fn exact_limit_encodes_and_one_more_fails() {
    let ok = "a".repeat(32767);
    let v = XLOper12::from_utf8(ok.as_bytes());
    match &v.val {
        XlVal::Str(buf) => {
            assert_eq!(buf.len(), 32768);
            assert_eq!(buf[0], 32767);
        }
        _ => panic!("not a string cell"),
    }
    let too_long = "a".repeat(32768);
    let v = XLOper12::from_utf8(too_long.as_bytes());
    assert!(v.is_err(XLERR_VALUE));
}

#[test]
fn surrogate_pairs_count_as_two_units() {
    // U+1D11E as UTF-8 bytes.
    let bytes = [0xf0u8, 0x9d, 0x84, 0x9e];
    let v = XLOper12::from_utf8(&bytes);
    match &v.val {
        XlVal::Str(buf) => assert_eq!(buf.as_slice(), &[2u16, 0xd834, 0xdd1e]),
        _ => panic!("not a string cell"),
    }
}

#[test]
fn tag_decode_masks_ownership_bits() {
    assert_eq!(xltype_of_tag(XLTYPE_STR), XLType::Str);
    assert_eq!(xltype_of_tag(XLTYPE_STR | XLBIT_DLLFREE), XLType::Str);
    assert_eq!(xltype_of_tag(XLTYPE_STR | XLBIT_XLFREE), XLType::Str);
    assert_eq!(xltype_of_tag(0x0802), XLType::BigData);
    assert_eq!(xltype_of_tag(0x0300), XLType::Unknown(0x0300));
    assert_eq!(tag_of_xltype(XLType::Multi), 0x0040);
    assert_eq!(xltype_of_tag(tag_of_xltype(XLType::Num) | XLBIT_DLLFREE), XLType::Num);
}

#[test]
fn display_renders_each_kind() {
    match XLOper12::error(XlErr::NA).display_text() {
        TextValue::Ready(s) => assert_eq!(s, "#N/A"),
        other => panic!("unexpected: {:?}", other),
    }
    match XLOper12::from_i32(-7).display_text() {
        TextValue::Ready(s) => assert_eq!(s, "-7"),
        other => panic!("unexpected: {:?}", other),
    }
    assert_eq!(num(2.5).display_text(), TextValue::FromNum(2.5f64.to_bits()));
    match text_cell("abc").display_text() {
        TextValue::Ready(s) => assert_eq!(s, "abc"),
        other => panic!("unexpected: {:?}", other),
    }
    let sref = XLOper12 {
        own: Ownership::Static,
        val: XlVal::SRef(SRefData { rw_first: 1, rw_last: 2, col_first: 3, col_last: 4 }),
    };
    match sref.display_text() {
        TextValue::Ready(s) => assert_eq!(s, "Sref:(1,3) -> (2,4)"),
        other => panic!("unexpected: {:?}", other),
    }
    match XLOper12::missing().display_text() {
        TextValue::Ready(s) => assert_eq!(s, "#MISSING"),
        other => panic!("unexpected: {:?}", other),
    }
}

#[test]
fn well_formedness_check() {
    assert!(text_cell("ok").check_wf());
    let bad_prefix = XLOper12 { own: Ownership::Static, val: XlVal::Str(vec![5u16, 97]) };
    assert!(!bad_prefix.check_wf());
    let bad_multi = XLOper12 {
        own: Ownership::Static,
        val: XlVal::Multi(XlMulti { rows: 2, columns: 2, elems: vec![num(1.0)] }),
    };
    assert!(!bad_multi.check_wf());
    let good_multi = XLOper12 {
        own: Ownership::Static,
        val: XlVal::Multi(XlMulti { rows: 1, columns: 1, elems: vec![num(1.0)] }),
    };
    assert!(good_multi.check_wf());
}

#[test]
fn deep_copy_of_an_array_copies_every_level() {
    let inner = XLOper12 { own: Ownership::Xl, val: XlVal::Str(vec![1u16, 97]) };
    let m = XLOper12 {
        own: Ownership::Xl,
        val: XlVal::Multi(XlMulti { rows: 1, columns: 2, elems: vec![inner, num(4.0)] }),
    };
    let copy = m.take_local_ownership();
    assert_eq!(copy.own, Ownership::Dll);
    match &copy.val {
        XlVal::Multi(cm) => {
            assert_eq!((cm.rows, cm.columns), (1, 2));
            assert_eq!(cm.elems.len(), 2);
            assert_eq!(cm.elems[0].own, Ownership::Dll);
            match &cm.elems[0].val {
                XlVal::Str(buf) => assert_eq!(buf.as_slice(), &[1u16, 97]),
                _ => panic!("element payload changed"),
            }
            assert!(matches!(cm.elems[1].val, XlVal::Num(_)));
        }
        _ => panic!("array kind changed"),
    }
    assert!(copy.check_wf());
}
