use assert_tv::json::JsonValue;
use assert_tv::{
    finalize_tv_case, initialize_tv_case_from_file, initialize_values, process_next_entry,
    JsonNumber, MismatchField, SessionRegistry, TestMode, TestValue, TestVector,
    TestVectorActive, TestVectorData, TestVectorEntry, TestVectorEntryType,
    TestVectorFileFormat, TestVectorMomento, TestVectorNOP, TestVectorSet, TvError,
};

struct I64Momento;

impl TestVectorMomento<i64> for I64Momento {
    fn serialize(&self, original_value: &i64) -> Result<JsonValue, String> {
        if *original_value >= 0 {
            Ok(JsonValue::Number(JsonNumber::PosInt(*original_value as u64)))
        } else {
            Ok(JsonValue::Number(JsonNumber::NegInt(*original_value)))
        }
    }

    fn deserialize(&self, value: &JsonValue) -> Result<i64, String> {
        match value {
            JsonValue::Number(JsonNumber::PosInt(n)) => Ok(*n as i64),
            JsonValue::Number(JsonNumber::NegInt(n)) => Ok(*n),
            _ => Err("expected an integer".to_string()),
        }
    }
}

/// Writes a u64 as a decimal string, as a custom serializer would.
struct U64AsString;

impl TestVectorMomento<u64> for U64AsString {
    fn serialize(&self, original_value: &u64) -> Result<JsonValue, String> {
        Ok(JsonValue::String(original_value.to_string()))
    }

    fn deserialize(&self, value: &JsonValue) -> Result<u64, String> {
        match value {
            JsonValue::String(s) => s.parse::<u64>().map_err(|e| e.to_string()),
            _ => Err("expected a string".to_string()),
        }
    }
}

/// A deserializer that never succeeds.
struct Broken;

impl TestVectorMomento<i64> for Broken {
    fn serialize(&self, original_value: &i64) -> Result<JsonValue, String> {
        I64Momento.serialize(original_value)
    }

    fn deserialize(&self, _value: &JsonValue) -> Result<i64, String> {
        Err("cannot read".to_string())
    }
}

/// A serializer that never succeeds.
struct Unserializable;

impl TestVectorMomento<i64> for Unserializable {
    fn serialize(&self, _original_value: &i64) -> Result<JsonValue, String> {
        Err("cannot write".to_string())
    }

    fn deserialize(&self, value: &JsonValue) -> Result<i64, String> {
        I64Momento.deserialize(value)
    }
}

fn num(n: u64) -> JsonValue {
    JsonValue::Number(JsonNumber::PosInt(n))
}

fn field<M>(name: &str, momento: M) -> TestValue<M> {
    TestValue::new(
        Some(name.to_string()),
        None,
        "tests/session.rs:1".to_string(),
        momento,
        false,
        false,
    )
}

fn no_file() -> Result<TestVectorData, String> {
    Err("no file".to_string())
}

fn open(
    registry: &mut SessionRegistry,
    mode: TestMode,
    stored: Result<TestVectorData, String>,
) -> assert_tv::TlsEnvGuard {
    initialize_tv_case_from_file(registry, "tv.json", TestVectorFileFormat::Json, mode, stored)
        .unwrap()
}

fn record_a_and_sum(sum: i64) -> TestVectorData {
    let mut registry = SessionRegistry::new();
    let guard = open(&mut registry, TestMode::Init, no_file());
    let a = field("a", I64Momento);
    let s = field("sum", I64Momento);
    let got = TestVectorActive::expose_value(&mut registry, &a, 42, None).unwrap();
    assert_eq!(got, 42);
    TestVectorActive::check_value(&mut registry, &s, &sum, None).unwrap();
    let plan = finalize_tv_case(&registry, false).unwrap().unwrap();
    guard.release(&mut registry);
    assert!(!registry.is_active());
    plan.document
}

#[test]
fn set_it_works() {
    let mut registry = SessionRegistry::new();
    let _guard: assert_tv::TlsEnvGuard = initialize_tv_case_from_file(
        &mut registry,
        "a",
        TestVectorFileFormat::Json,
        TestMode::Init,
        no_file(),
    )
    .unwrap();
}

struct Fields {
    m: TestValue<I64Momento>,
}

impl TestVectorSet for Fields {
    fn start<TV: TestVector>() -> Self {
        Fields {
            m: TestValue::new(
                Some("m".to_string()),
                None,
                "tests/session.rs:2".to_string(),
                I64Momento,
                false,
                false,
            ),
        }
    }
}

fn c1<TV: TestVector>(registry: &mut SessionRegistry, x1: i64, x2: i64) -> i64 {
    let fields: Fields = initialize_values::<TV, Fields>();
    let m: i64 = x1 * 5;
    let m: i64 = TV::expose_value(registry, &fields.m, m, None).unwrap();
    m - x2
}

#[test]
fn main_it_works() {
    let mut registry = SessionRegistry::new();
    let r = c1::<TestVectorNOP>(&mut registry, 1, 2);
    println!("{:?}", r);
    assert_eq!(r, 3);
    assert!(!registry.is_active());
}

#[test]
fn init_then_check_scenario() {
    let document = record_a_and_sum(43);
    assert_eq!(document.entries.len(), 2);
    assert_eq!(document.entries[0].name.as_deref(), Some("a"));
    assert_eq!(document.entries[0].entry_type, TestVectorEntryType::Const);
    assert!(document.entries[0].value.equals(&num(42)));
    assert_eq!(document.entries[1].name.as_deref(), Some("sum"));
    assert_eq!(document.entries[1].entry_type, TestVectorEntryType::Output);
    assert!(document.entries[1].value.equals(&num(43)));

    let mut registry = SessionRegistry::new();
    let guard = open(&mut registry, TestMode::Check, Ok(document.duplicate()));
    let a = TestVectorActive::expose_value(&mut registry, &field("a", I64Momento), 99, None);
    assert_eq!(a.unwrap(), 42);
    TestVectorActive::check_value(&mut registry, &field("sum", I64Momento), &43, None).unwrap();
    assert!(finalize_tv_case(&registry, true).unwrap().is_none());
    guard.release(&mut registry);

    let guard = open(&mut registry, TestMode::Check, Ok(document));
    let a = TestVectorActive::expose_value(&mut registry, &field("a", I64Momento), 99, None);
    assert_eq!(a.unwrap(), 42);
    let r = TestVectorActive::check_value(&mut registry, &field("sum", I64Momento), &44, None);
    match r {
        Err(TvError::Mismatch { field, loaded, observed }) => {
            assert_eq!(field, MismatchField::Value);
            assert_eq!(loaded.name.as_deref(), Some("sum"));
            assert!(observed.value.equals(&num(44)));
        }
        other => panic!("expected a value mismatch, got {:?}", other),
    }
    guard.release(&mut registry);
}

#[test]
fn check_twice_writes_nothing() {
    let document = record_a_and_sum(43);
    for _ in 0..2 {
        let mut registry = SessionRegistry::new();
        let guard = open(&mut registry, TestMode::Check, Ok(document.duplicate()));
        let a = TestVectorActive::expose_value(&mut registry, &field("a", I64Momento), 7, None);
        assert_eq!(a.unwrap(), 42);
        TestVectorActive::check_value(&mut registry, &field("sum", I64Momento), &43, None)
            .unwrap();
        assert!(finalize_tv_case(&registry, true).unwrap().is_none());
        assert!(finalize_tv_case(&registry, false).unwrap().is_none());
        guard.release(&mut registry);
    }
}

#[test]
fn init_rewrites_only_on_change() {
    let mut registry = SessionRegistry::new();
    let guard = open(&mut registry, TestMode::Init, no_file());
    assert!(finalize_tv_case(&registry, true).unwrap().is_none());
    assert!(finalize_tv_case(&registry, false).unwrap().is_some());
    TestVectorActive::check_value(&mut registry, &field("x", I64Momento), &1, None).unwrap();
    let plan = finalize_tv_case(&registry, true).unwrap().unwrap();
    assert_eq!(plan.tv_file_path, "tv.json");
    assert_eq!(plan.file_format, TestVectorFileFormat::Json);
    assert_eq!(plan.document.entries.len(), 1);
    guard.release(&mut registry);
}

#[test]
fn init_ignores_an_unreadable_file() {
    let mut registry = SessionRegistry::new();
    let guard = open(&mut registry, TestMode::Init, no_file());
    let x = TestVectorActive::expose_value(&mut registry, &field("x", I64Momento), -5, None);
    assert_eq!(x.unwrap(), -5);
    guard.release(&mut registry);
}

#[test]
fn constant_tolerance_output_strictness() {
    let document = record_a_and_sum(43);
    let mut registry = SessionRegistry::new();
    let guard = open(&mut registry, TestMode::Check, Ok(document));
    let mut a: i64 = 1000;
    TestVectorActive::expose_mut_value(&mut registry, &field("a", I64Momento), &mut a, None)
        .unwrap();
    assert_eq!(a, 42);
    let r = TestVectorActive::check_value(&mut registry, &field("sum", I64Momento), &0, None);
    assert!(matches!(r, Err(TvError::Mismatch { field: MismatchField::Value, .. })));
    guard.release(&mut registry);
}

#[test]
fn inserted_entry_is_detected() {
    let document = record_a_and_sum(43);
    let mut registry = SessionRegistry::new();
    let guard = open(&mut registry, TestMode::Check, Ok(document.duplicate()));
    let r = TestVectorActive::expose_value(&mut registry, &field("new", I64Momento), 1, None);
    assert!(matches!(r, Err(TvError::Mismatch { field: MismatchField::Name, .. })));
    guard.release(&mut registry);

    // Same name, other kind.
    let guard = open(&mut registry, TestMode::Check, Ok(document.duplicate()));
    let r = TestVectorActive::check_value(&mut registry, &field("a", I64Momento), &42, None);
    assert!(matches!(r, Err(TvError::Mismatch { field: MismatchField::EntryType, .. })));
    guard.release(&mut registry);

    // Same name and kind as the first entry: the shift surfaces later.
    let guard = open(&mut registry, TestMode::Check, Ok(document));
    let a = field("a", I64Momento);
    assert_eq!(TestVectorActive::expose_value(&mut registry, &a, 1, None).unwrap(), 42);
    let r = TestVectorActive::expose_value(&mut registry, &a, 1, None);
    assert!(matches!(r, Err(TvError::Mismatch { field: MismatchField::Name, .. })));
    let r = TestVectorActive::check_value(&mut registry, &field("sum", I64Momento), &43, None);
    assert!(matches!(r, Err(TvError::MissingEntry { .. })));
    guard.release(&mut registry);
}

#[test]
fn errors_of_a_session() {
    let mut registry = SessionRegistry::new();
    let r = TestVectorActive::expose_value(&mut registry, &field("a", I64Momento), 1, None);
    assert!(matches!(r, Err(TvError::NotInitialized)));
    assert!(matches!(finalize_tv_case(&registry, true), Err(TvError::NotInitialized)));

    let r = initialize_tv_case_from_file(
        &mut registry,
        "missing.toml",
        TestVectorFileFormat::Toml,
        TestMode::Check,
        no_file(),
    );
    assert!(matches!(r, Err(TvError::Load { .. })));
    assert!(!registry.is_active());

    let guard = open(&mut registry, TestMode::Init, no_file());
    let again = initialize_tv_case_from_file(
        &mut registry,
        "other.json",
        TestVectorFileFormat::Json,
        TestMode::Init,
        no_file(),
    );
    match again {
        Err(TvError::AlreadyActive { active_path }) => assert_eq!(active_path, "tv.json"),
        other => panic!("expected AlreadyActive, got {:?}", other),
    }
    let r = TestVectorActive::expose_value(&mut registry, &field("b", Broken), 3, None);
    assert!(matches!(r, Err(TvError::SerializationRoundTrip { .. })));
    let r = TestVectorActive::expose_value(&mut registry, &field("c", Unserializable), 3, None);
    assert!(matches!(r, Err(TvError::Serialization { .. })));
    guard.release(&mut registry);

    let mut stored = TestVectorData::new();
    stored.entries.push(TestVectorEntry {
        entry_type: TestVectorEntryType::Const,
        description: None,
        name: Some("b".to_string()),
        value: num(3),
        code_location: None,
        test_vec_set_code_location: None,
        offload: false,
    });
    let guard = open(&mut registry, TestMode::Check, Ok(stored));
    let r = TestVectorActive::expose_value(&mut registry, &field("b", Broken), 3, None);
    assert!(matches!(r, Err(TvError::Deserialization { .. })));
    guard.release(&mut registry);
}

#[test]
fn custom_serializer_round_trips() {
    let mut registry = SessionRegistry::new();
    let guard = open(&mut registry, TestMode::Init, no_file());
    let a = field("a", U64AsString);
    let got = TestVectorActive::expose_value(&mut registry, &a, 18446744073709551615, None);
    assert_eq!(got.unwrap(), u64::MAX);
    let plan = finalize_tv_case(&registry, false).unwrap().unwrap();
    assert!(plan.document.entries[0]
        .value
        .equals(&JsonValue::String("18446744073709551615".to_string())));
    guard.release(&mut registry);
}

#[test]
fn process_next_entry_records_every_call() {
    let mut registry = SessionRegistry::new();
    let guard = open(&mut registry, TestMode::Init, no_file());
    let r = process_next_entry(
        &mut registry,
        TestVectorEntryType::Output,
        Some("d".to_string()),
        Some("n".to_string()),
        JsonValue::Bool(true),
        Some("here".to_string()),
        None,
        false,
    );
    assert!(matches!(r, Ok(None)));
    let r = process_next_entry(
        &mut registry,
        TestVectorEntryType::Const,
        None,
        None,
        JsonValue::Null,
        None,
        None,
        false,
    );
    assert!(matches!(r, Ok(Some(JsonValue::Null))));
    let plan = finalize_tv_case(&registry, true).unwrap().unwrap();
    assert_eq!(plan.document.entries.len(), 2);
    assert_eq!(plan.document.entries[0].description.as_deref(), Some("d"));
    assert_eq!(plan.document.entries[0].code_location.as_deref(), Some("here"));
    guard.release(&mut registry);
}

#[test]
fn mode_from_name() {
    assert_eq!(TestMode::from_name(Some("init")), TestMode::Init);
    assert_eq!(TestMode::from_name(Some("check")), TestMode::Check);
    assert_eq!(TestMode::from_name(Some("record")), TestMode::Check);
    assert_eq!(TestMode::from_name(None), TestMode::Check);
}
