use assert_tv::{
    finalize_tv_case, initialize_tv_case_from_file, JsonNumber, JsonValue, SessionRegistry,
    TestMode, TestValue, TestVector, TestVectorActive, TestVectorData, TestVectorFileFormat,
    TestVectorMomento,
};

#[derive(Debug, PartialEq)]
pub struct Point {
    pub x: u32,
    pub y: u32,
}

struct PointMomento;

fn member(members: &[(String, JsonValue)], key: &str) -> Result<u32, String> {
    for (k, v) in members {
        if k == key {
            return match v {
                JsonValue::Number(JsonNumber::PosInt(n)) => Ok(*n as u32),
                _ => Err(format!("field {} is not a number", key)),
            };
        }
    }
    Err(format!("field {} is missing", key))
}

impl TestVectorMomento<Point> for PointMomento {
    fn serialize(&self, original_value: &Point) -> Result<JsonValue, String> {
        Ok(JsonValue::Object(vec![
            ("x".to_string(), JsonValue::Number(JsonNumber::PosInt(original_value.x as u64))),
            ("y".to_string(), JsonValue::Number(JsonNumber::PosInt(original_value.y as u64))),
        ]))
    }

    fn deserialize(&self, value: &JsonValue) -> Result<Point, String> {
        match value {
            JsonValue::Object(members) => Ok(Point {
                x: member(members, "x")?,
                y: member(members, "y")?,
            }),
            _ => Err("expected an object".to_string()),
        }
    }
}

#[test]
fn point_momento_round_trip() {
    let field = TestValue::new(
        Some("displacement".to_string()),
        Some("random displacement".to_string()),
        "tests/momento.rs:1".to_string(),
        PointMomento,
        false,
        true,
    );
    let mut registry = SessionRegistry::new();
    let guard = initialize_tv_case_from_file(
        &mut registry,
        "points.yaml",
        TestVectorFileFormat::Yaml,
        TestMode::Init,
        Err(String::new()),
    )
    .unwrap();
    assert_eq!(registry.active_path().as_deref(), Some("points.yaml"));
    let p = TestVectorActive::expose_value(&mut registry, &field, Point { x: 7, y: 9 }, None);
    assert_eq!(p.unwrap(), Point { x: 7, y: 9 });
    let plan = finalize_tv_case(&registry, true).unwrap().unwrap();
    guard.release(&mut registry);
    assert_eq!(registry.active_path(), None);

    // The main document holds null, the sidecar the point.
    assert!(plan.document.entries[0].value.is_null());
    assert_eq!(plan.offloaded.len(), 1);
    assert_eq!(plan.offloaded[0].path, "points.yaml_offloaded_value_0.zstd");

    let mut stored: TestVectorData = plan.document.duplicate();
    stored
        .load_offloaded_values(&vec![Some(plan.offloaded[0].value.duplicate())])
        .unwrap();
    let guard = initialize_tv_case_from_file(
        &mut registry,
        "points.yaml",
        TestVectorFileFormat::Yaml,
        TestMode::Check,
        Ok(stored),
    )
    .unwrap();
    let p = TestVectorActive::expose_value(&mut registry, &field, Point { x: 0, y: 1 }, None);
    assert_eq!(p.unwrap(), Point { x: 7, y: 9 });
    guard.release(&mut registry);
}
