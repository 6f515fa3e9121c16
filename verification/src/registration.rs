//! The registry bookkeeping for the in-process server: the key paths and
//! key values to write, as plain text. The registry calls themselves, and
//! the lookup of the module's file path and the user's identifier, are the
//! rim's; what gets written where is computed and verified here.
use crate::text;
use vstd::prelude::*;

verus! {

/// A class identifier, held as its raw fields.
#[derive(Clone, Copy, Debug, PartialEq, Eq)]
pub struct Clsid {
    pub data1: u32,
    pub data2: u16,
    pub data3: u16,
    pub data4: [u8; 8],
}

/// One registry key to create: its path below the chosen root, the value
/// name (empty for the default value), and the data to store.
#[derive(Debug)]
pub struct RegistryKeyInfo {
    pub key_path: String,
    pub key_value_name: String,
    pub key_value_data: String,
}

/// The canonical hyphenated form of a class identifier, as ASCII bytes.
pub open spec fn spec_clsid_bytes(c: Clsid) -> Seq<u8> {
    text::hex_rep(c.data1 as nat, 8) + seq![45u8] + text::hex_rep(c.data2 as nat, 4) + seq![45u8]
        + text::hex_rep(c.data3 as nat, 4) + seq![45u8] + text::hex_rep(c.data4@[0] as nat, 2)
        + text::hex_rep(c.data4@[1] as nat, 2) + seq![45u8] + text::hex_rep(c.data4@[2] as nat, 2)
        + text::hex_rep(c.data4@[3] as nat, 2) + text::hex_rep(c.data4@[4] as nat, 2)
        + text::hex_rep(c.data4@[5] as nat, 2) + text::hex_rep(c.data4@[6] as nat, 2)
        + text::hex_rep(c.data4@[7] as nat, 2)
}

pub open spec fn spec_clsid_chars(c: Clsid) -> Seq<char> {
    spec_clsid_bytes(c).map(|i: int, b: u8| b as char)
}

/// Renders a class identifier in its canonical hyphenated form.
pub fn clsid_string(c: &Clsid) -> (r: String)
    ensures
        r@ == spec_clsid_chars(*c),
{
    let mut v: Vec<u8> = Vec::new();
    text::push_hex(&mut v, c.data1 as u64, 8);
    v.push(45);
    text::push_hex(&mut v, c.data2 as u64, 4);
    v.push(45);
    text::push_hex(&mut v, c.data3 as u64, 4);
    v.push(45);
    text::push_hex(&mut v, c.data4[0] as u64, 2);
    text::push_hex(&mut v, c.data4[1] as u64, 2);
    v.push(45);
    text::push_hex(&mut v, c.data4[2] as u64, 2);
    text::push_hex(&mut v, c.data4[3] as u64, 2);
    text::push_hex(&mut v, c.data4[4] as u64, 2);
    text::push_hex(&mut v, c.data4[5] as u64, 2);
    text::push_hex(&mut v, c.data4[6] as u64, 2);
    text::push_hex(&mut v, c.data4[7] as u64, 2);
    proof {
        assert(v@ =~= spec_clsid_bytes(*c));
        assert forall|i: int| 0 <= i < v@.len() implies v@[i] < 128 by {
            text::lemma_hex_rep_ascii(c.data1 as nat, 8);
            text::lemma_hex_rep_ascii(c.data2 as nat, 4);
            text::lemma_hex_rep_ascii(c.data3 as nat, 4);
            text::lemma_hex_rep_ascii(c.data4@[0] as nat, 2);
            text::lemma_hex_rep_ascii(c.data4@[1] as nat, 2);
            text::lemma_hex_rep_ascii(c.data4@[2] as nat, 2);
            text::lemma_hex_rep_ascii(c.data4@[3] as nat, 2);
            text::lemma_hex_rep_ascii(c.data4@[4] as nat, 2);
            text::lemma_hex_rep_ascii(c.data4@[5] as nat, 2);
            text::lemma_hex_rep_ascii(c.data4@[6] as nat, 2);
            text::lemma_hex_rep_ascii(c.data4@[7] as nat, 2);
        }
    }
    let r = text::string_from_ascii(v);
    proof {
        assert(r@ =~= spec_clsid_chars(*c));
    }
    r
}

/// The key path that names the server class: the class name with `\CLSID`
/// appended.
pub fn server_name_key_path(class_name: &str) -> (r: String)
    ensures
        r@ == class_name@ + "\\CLSID"@,
{
    let mut s: String = class_name.to_owned();
    s.append("\\CLSID");
    s
}

/// The key path of the class identifier's own key.
pub fn class_key_path(clsid: &Clsid) -> (r: String)
    ensures
        r@ == "CLSID\\{"@ + spec_clsid_chars(*clsid) + "}"@,
{
    String::from_str("CLSID\\{").concat(clsid_string(clsid).as_str()).concat("}")
}

/// The key path of the class's in-process server key.
pub fn class_inproc_key_path(clsid: &Clsid) -> (r: String)
    ensures
        r@ == "CLSID\\{"@ + spec_clsid_chars(*clsid) + "}"@ + "\\InprocServer32"@,
{
    class_key_path(clsid).concat("\\InprocServer32")
}

/// The three keys registering one server class under a per-user prefix:
/// the name-to-class link, the class key naming the server, and the
/// in-process server key naming the module file. All use the default value
/// name.
pub fn relevant_registry_keys(
    prefix: &str,
    server_name: &str,
    clsid: &Clsid,
    file_path: &str,
) -> (r: Vec<RegistryKeyInfo>)
    ensures
        r@.len() == 3,
        r@[0].key_path@ == prefix@ + server_name@ + "\\CLSID"@,
        r@[0].key_value_name@ == Seq::<char>::empty(),
        r@[0].key_value_data@ == "{"@ + spec_clsid_chars(*clsid) + "}"@,
        r@[1].key_path@ == prefix@ + ("CLSID\\{"@ + spec_clsid_chars(*clsid) + "}"@),
        r@[1].key_value_name@ == Seq::<char>::empty(),
        r@[1].key_value_data@ == server_name@,
        r@[2].key_path@ == prefix@ + ("CLSID\\{"@ + spec_clsid_chars(*clsid) + "}"@
            + "\\InprocServer32"@),
        r@[2].key_value_name@ == Seq::<char>::empty(),
        r@[2].key_value_data@ == file_path@,
{
    let mut keys: Vec<RegistryKeyInfo> = Vec::new();
    keys.push(
        RegistryKeyInfo {
            key_path: prefix.to_owned().concat(server_name_key_path(server_name).as_str()),
            key_value_name: String::new(),
            key_value_data: String::from_str("{").concat(clsid_string(clsid).as_str()).concat("}"),
        },
    );
    keys.push(
        RegistryKeyInfo {
            key_path: prefix.to_owned().concat(class_key_path(clsid).as_str()),
            key_value_name: String::new(),
            key_value_data: server_name.to_owned(),
        },
    );
    keys.push(
        RegistryKeyInfo {
            key_path: prefix.to_owned().concat(class_inproc_key_path(clsid).as_str()),
            key_value_name: String::new(),
            key_value_data: file_path.to_owned(),
        },
    );
    keys
}

} // verus!
