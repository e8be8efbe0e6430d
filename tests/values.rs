use assert_tv::compress::{compress, decompress};
use assert_tv::location::pretty_location_file;
use assert_tv::offload::{append_suffix_to_filename, offloaded_value_path};
use assert_tv::{
    JsonNumber, JsonValue, TestVectorData, TestVectorEntry, TestVectorEntryType, TvError,
};

fn entry(name: &str, value: JsonValue, offload: bool) -> TestVectorEntry {
    TestVectorEntry {
        entry_type: TestVectorEntryType::Const,
        description: None,
        name: Some(name.to_string()),
        value,
        code_location: None,
        test_vec_set_code_location: None,
        offload,
    }
}

fn sample() -> JsonValue {
    JsonValue::Object(vec![
        ("k".to_string(), JsonValue::Array(vec![JsonValue::Bool(false), JsonValue::Null])),
        ("n".to_string(), JsonValue::Number(JsonNumber::NegInt(-3))),
        ("s".to_string(), JsonValue::String("x".to_string())),
    ])
}

#[test]
fn json_structural_equality() {
    let a = sample();
    let b = a.duplicate();
    assert!(a.equals(&b));
    let c = JsonValue::Object(vec![
        ("k".to_string(), JsonValue::Array(vec![JsonValue::Bool(true), JsonValue::Null])),
        ("n".to_string(), JsonValue::Number(JsonNumber::NegInt(-3))),
        ("s".to_string(), JsonValue::String("x".to_string())),
    ]);
    assert!(!a.equals(&c));
    assert!(!JsonValue::Number(JsonNumber::PosInt(1)).equals(&JsonValue::Number(JsonNumber::Float(1))));
    assert!(JsonValue::Null.is_null());
    assert!(!JsonValue::Array(vec![]).is_null());
    assert!(!JsonValue::Array(vec![]).equals(&JsonValue::Object(vec![])));
}

#[test]
fn json_equality_follows_the_data() {
    let s = |t: &str| t.to_string();
    let ordered = JsonValue::Object(vec![
        (s("a"), JsonValue::Number(JsonNumber::PosInt(1))),
        (s("b"), JsonValue::Null),
    ]);
    let reordered = JsonValue::Object(vec![
        (s("b"), JsonValue::Null),
        (s("a"), JsonValue::Number(JsonNumber::NegInt(1))),
    ]);
    assert!(ordered.equals(&reordered));
    let repeated = JsonValue::Object(vec![
        (s("a"), JsonValue::Bool(true)),
        (s("b"), JsonValue::Null),
        (s("a"), JsonValue::Number(JsonNumber::PosInt(1))),
    ]);
    assert!(ordered.equals(&repeated));
    assert!(!repeated.equals(&JsonValue::Object(vec![(s("a"), JsonValue::Bool(true))])));
    let missing = JsonValue::Object(vec![(s("a"), JsonValue::Number(JsonNumber::PosInt(1)))]);
    assert!(!ordered.equals(&missing));
    assert!(!missing.equals(&ordered));
    assert!(JsonValue::Number(JsonNumber::PosInt(5)).equals(&JsonValue::Number(JsonNumber::NegInt(5))));
    assert!(!JsonValue::Number(JsonNumber::PosInt(5)).equals(&JsonValue::Number(JsonNumber::NegInt(-5))));
    let zero = JsonValue::Number(JsonNumber::Float(0.0f64.to_bits()));
    let negative_zero = JsonValue::Number(JsonNumber::Float((-0.0f64).to_bits()));
    assert!(zero.equals(&negative_zero));
    assert!(!zero.equals(&JsonValue::Number(JsonNumber::Float(1.0f64.to_bits()))));
}

#[test]
fn document_equality() {
    let mut a = TestVectorData::new();
    a.entries.push(entry("a", sample(), false));
    let b = a.duplicate();
    assert!(a.equals(&b));
    let mut c = a.duplicate();
    c.entries[0].code_location = Some("elsewhere".to_string());
    assert!(!a.equals(&c));
    assert!(!a.equals(&TestVectorData::new()));
}

#[test]
fn offloaded_values_round_trip() {
    let mut doc = TestVectorData::new();
    doc.entries.push(entry("a", JsonValue::String("inline".to_string()), false));
    doc.entries.push(entry("big", sample(), true));
    doc.entries.push(entry("c", JsonValue::Number(JsonNumber::PosInt(9)), true));
    let original = doc.duplicate();

    let offloaded = doc.save_offloaded_values("dir/tv.json");
    assert_eq!(offloaded.len(), 2);
    assert_eq!(offloaded[0].index, 1);
    assert_eq!(offloaded[0].path, "dir/tv.json_offloaded_value_1.zstd");
    assert!(offloaded[0].value.equals(&sample()));
    assert_eq!(offloaded[1].index, 2);
    assert_eq!(offloaded[1].path, "dir/tv.json_offloaded_value_2.zstd");
    assert!(doc.entries[0].value.equals(&JsonValue::String("inline".to_string())));
    assert!(doc.entries[1].value.is_null());
    assert!(doc.entries[2].value.is_null());

    let mut sidecars: Vec<Option<JsonValue>> = vec![None, None, None];
    for o in &offloaded {
        sidecars[o.index] = Some(o.value.duplicate());
    }
    doc.load_offloaded_values(&sidecars).unwrap();
    assert!(doc.equals(&original));
}

#[test]
fn missing_sidecar_is_a_load_error() {
    let mut doc = TestVectorData::new();
    doc.entries.push(entry("big", JsonValue::Null, true));
    let before = doc.duplicate();
    let r = doc.load_offloaded_values(&vec![None]);
    assert!(matches!(r, Err(TvError::Load { .. })));
    assert!(doc.equals(&before));
    let r = doc.load_offloaded_values(&vec![]);
    assert!(matches!(r, Err(TvError::Load { .. })));
}

#[test]
fn sidecar_names() {
    assert_eq!(offloaded_value_path("a.json", 0), "a.json_offloaded_value_0.zstd");
    assert_eq!(offloaded_value_path("x/y/a.toml", 120), "x/y/a.toml_offloaded_value_120.zstd");
    assert_eq!(append_suffix_to_filename("dir/", "_s"), "dir_s");
    assert_eq!(append_suffix_to_filename("..", "_s"), "..");
    assert_eq!(append_suffix_to_filename("a/.", "_s"), "a_s");
    assert_eq!(
        offloaded_value_path("dir/tv.json/", 0),
        "dir/tv.json_offloaded_value_0.zstd"
    );
    assert_eq!(
        offloaded_value_path("dir/tv.json/.", 0),
        "dir/tv.json_offloaded_value_0.zstd"
    );
    assert_eq!(append_suffix_to_filename("a/./", "_s"), "a_s");
    assert_eq!(append_suffix_to_filename("/", "_s"), "/");
    assert_eq!(append_suffix_to_filename("./", "_s"), "./");
    assert_eq!(append_suffix_to_filename("x/..", "_s"), "x/..");
    assert_eq!(append_suffix_to_filename("", "_s"), "");
    assert_eq!(append_suffix_to_filename(".hidden", "_s"), ".hidden_s");
}

#[test]
fn compression_round_trip() {
    let data: Vec<u8> = b"{\"k\":[1,2,3],\"k2\":[1,2,3],\"k3\":[1,2,3]}".to_vec();
    let packed = compress(&data);
    assert_ne!(packed, data);
    assert_eq!(&packed[0..4], &[0x28, 0xb5, 0x2f, 0xfd]);
    let unpacked = decompress(&packed).unwrap();
    assert_eq!(unpacked, data);
    assert!(matches!(decompress(b"not zstd"), Err(TvError::Load { .. })));
}

#[test]
fn location_display() {
    assert_eq!(pretty_location_file("/home/u/proj/mycrate/src/lib.rs"), "mycrate/src/lib.rs");
    assert_eq!(pretty_location_file("C:\\work\\mycrate\\src\\a\\b.rs"), "mycrate/src/a/b.rs");
    assert_eq!(pretty_location_file("/x/src/y/src/z.rs"), "y/src/z.rs");
    assert_eq!(pretty_location_file("/src/main.rs"), "src/main.rs");
    assert_eq!(pretty_location_file("tests/it.rs"), "tests/it.rs");
    assert_eq!(pretty_location_file("a/b/c/d.rs"), "c/d.rs");
    assert_eq!(pretty_location_file("main.rs"), "main.rs");
    assert_eq!(pretty_location_file("/main.rs"), "main.rs");
    assert_eq!(pretty_location_file("x//main.rs"), "main.rs");
}
