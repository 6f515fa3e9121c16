use netidx_excel::config::{config_base_dir, Auth, Config, LogLevel};
use netidx_excel::registration::{
    class_inproc_key_path, class_key_path, clsid_string, relevant_registry_keys,
    server_name_key_path, Clsid,
};
use netidx_excel::text::{i32_to_string, u32_to_string};
use netidx_excel::udf::{registration_succeeded, Udf, Xlfn};
use netidx_excel::xloper12::{XLOper12, XlErr, XlVal, XLERR_VALUE};

fn sample_clsid() -> Clsid {
    Clsid {
        data1: 0x1234abcd,
        data2: 0x00ef,
        data3: 0x9a00,
        data4: [0x01, 0x23, 0x45, 0x67, 0x89, 0xab, 0xcd, 0xef],
    }
}

#[test]
fn clsid_renders_hyphenated_lowercase_hex() {
    assert_eq!(clsid_string(&sample_clsid()), "1234abcd-00ef-9a00-0123-456789abcdef");
}

#[test]
fn key_paths() {
    assert_eq!(server_name_key_path("NetidxRTD"), "NetidxRTD\\CLSID");
    assert_eq!(
        class_key_path(&sample_clsid()),
        "CLSID\\{1234abcd-00ef-9a00-0123-456789abcdef}"
    );
    assert_eq!(
        class_inproc_key_path(&sample_clsid()),
        "CLSID\\{1234abcd-00ef-9a00-0123-456789abcdef}\\InprocServer32"
    );
}

#[test]
fn registry_keys_for_one_class() {
    let keys = relevant_registry_keys(
        "S-1-5-21-1_Classes\\",
        "NetidxRTD",
        &sample_clsid(),
        "C:\\addin.xll",
    );
    assert_eq!(keys.len(), 3);
    assert_eq!(keys[0].key_path, "S-1-5-21-1_Classes\\NetidxRTD\\CLSID");
    assert_eq!(keys[0].key_value_name, "");
    assert_eq!(keys[0].key_value_data, "{1234abcd-00ef-9a00-0123-456789abcdef}");
    assert_eq!(
        keys[1].key_path,
        "S-1-5-21-1_Classes\\CLSID\\{1234abcd-00ef-9a00-0123-456789abcdef}"
    );
    assert_eq!(keys[1].key_value_data, "NetidxRTD");
    assert_eq!(
        keys[2].key_path,
        "S-1-5-21-1_Classes\\CLSID\\{1234abcd-00ef-9a00-0123-456789abcdef}\\InprocServer32"
    );
    assert_eq!(keys[2].key_value_data, "C:\\addin.xll");
}

#[test]
fn integer_rendering() {
    assert_eq!(u32_to_string(0), "0");
    assert_eq!(u32_to_string(4294967295), "4294967295");
    assert_eq!(i32_to_string(-2147483648), "-2147483648");
    assert_eq!(i32_to_string(42), "42");
}

#[test]
fn config_defaults() {
    let c = Config::default();
    assert_eq!(c.log_level, LogLevel::Off);
    assert_eq!(c.auth_mechanism, None);
    let with_auth = Config { log_level: LogLevel::Debug, auth_mechanism: Some(Auth::Tls) };
    assert_ne!(c, with_auth);
}

#[test]
fn config_directory_fallbacks() {
    assert_eq!(
        config_base_dir(Some(String::from("/cfg")), Some(String::from("/home"))),
        "/cfg"
    );
    assert_eq!(config_base_dir(None, Some(String::from("/home"))), "/home");
    assert_eq!(config_base_dir(None, None), "\\");
}

#[test]
fn registration_arguments() {
    let udf = Udf {
        name: String::from("NetSet"),
        exported_function: String::from("NetSet"),
    };
    let dll_name = XLOper12::from_utf8("addin.xll".as_bytes());
    let opers = udf.register(
        dll_name,
        "QCQC$",
        "path,value,[type]",
        "Netidx",
        "Write to a Netidx container",
        &vec![String::from("the path")],
    );
    assert_eq!(opers.len(), 11);
    assert!(matches!(opers[5].val, XlVal::Int(1)));
    assert!(matches!(opers[7].val, XlVal::Missing));
    assert!(matches!(opers[8].val, XlVal::Missing));
    match &opers[2].val {
        XlVal::Str(buf) => {
            let expected: Vec<u16> = "QCQC$".encode_utf16().collect();
            assert_eq!(&buf[1..], expected.as_slice());
        }
        _ => panic!("argument types are not a string cell"),
    }
}

#[test]
fn registration_outcome_judgment() {
    let ok = XLOper12::from_i32(1);
    assert!(registration_succeeded(true, &ok));
    assert!(!registration_succeeded(false, &ok));
    let value_err = XLOper12::error(XlErr::Value);
    assert!(value_err.is_err(XLERR_VALUE));
    assert!(!registration_succeeded(true, &value_err));
    let other_err = XLOper12::error(XlErr::Name);
    assert!(registration_succeeded(true, &other_err));
}

#[test]
fn callback_codes() {
    assert_eq!(Xlfn::Caller.code(), 89);
    assert_eq!(Xlfn::GetName.code(), 0x4009);
    assert_eq!(Xlfn::Rtd.code(), 379);
    assert_eq!(Xlfn::Register.code(), 149);
    assert_eq!(Xlfn::AsyncReturn.code(), 0x400e);
}
