use rustbasic_activitylog::service::{ActivityLogger, BindValue, INSERT_ACTIVITY_SQL};
use rustbasic_core::serde_json::Value;
use rustbasic_core::sql::AnyPool;
use rustbasic_core::tokio::runtime::{Builder, Runtime};

fn runtime() -> Runtime {
    Builder::new_current_thread().enable_all().build().unwrap()
}

fn pool(rt: &Runtime) -> AnyPool {
    rt.block_on(AnyPool::connect("sqlite::memory:")).unwrap()
}

fn object(members: &[(&str, Value)]) -> Value {
    let mut map = rustbasic_core::serde_json::Map::new();
    for (key, value) in members {
        map.insert(key.to_string(), value.clone());
    }
    Value::Object(map)
}

#[test]
fn new_logger_records_default_log_only() {
    let rt = runtime();
    let record = ActivityLogger::new(pool(&rt)).record_at("Something happened", "2024-05-01 10:00:00");
    assert_eq!(record.log_name, "default");
    assert_eq!(record.description, "Something happened");
    assert_eq!(record.subject_type, None);
    assert_eq!(record.subject_id, None);
    assert_eq!(record.causer_type, None);
    assert_eq!(record.causer_id, None);
    assert_eq!(record.properties, None);
    assert_eq!(record.created_at, "2024-05-01 10:00:00");
    assert_eq!(record.updated_at, "2024-05-01 10:00:00");
}

#[test]
fn builder_chain_fills_every_column() {
    let rt = runtime();
    let properties = object(&[("ip", Value::from("127.0.0.1"))]);
    let record = ActivityLogger::new(pool(&rt))
        .use_log("auth")
        .performed_on("users", 7)
        .caused_by("users", 42)
        .with_properties(properties)
        .record_at("User login", "2024-05-01 10:00:00.5");
    assert_eq!(record.log_name, "auth");
    assert_eq!(record.description, "User login");
    assert_eq!(record.subject_type.as_deref(), Some("users"));
    assert_eq!(record.subject_id, Some(7));
    assert_eq!(record.causer_type.as_deref(), Some("users"));
    assert_eq!(record.causer_id, Some(42));
    assert_eq!(record.properties.as_deref(), Some("{\"ip\":\"127.0.0.1\"}"));
    assert_eq!(record.created_at, record.updated_at);
}

#[test]
fn nested_properties_are_written_as_compact_json() {
    let rt = runtime();
    let email = object(&[
        ("old", Value::from("old-email@example.com")),
        ("new", Value::from("new-email@example.com")),
    ]);
    let properties = object(&[
        ("ip_address", Value::from("192.168.1.1")),
        ("changes", object(&[("email", email)])),
    ]);
    let record = ActivityLogger::new(pool(&rt))
        .use_log("user_management")
        .caused_by("users", 3)
        .performed_on("users", 3)
        .with_properties(properties)
        .record_at("User memperbarui alamat email utama", "now");
    assert_eq!(
        record.properties.as_deref(),
        Some("{\"changes\":{\"email\":{\"new\":\"new-email@example.com\",\"old\":\"old-email@example.com\"}},\"ip_address\":\"192.168.1.1\"}")
    );
}

#[test]
fn later_settings_replace_earlier_ones() {
    let rt = runtime();
    let record = ActivityLogger::new(pool(&rt))
        .use_log("first")
        .use_log("second")
        .performed_on("posts", 1)
        .performed_on("comments", 2)
        .caused_by("users", 3)
        .caused_by("admins", 4)
        .with_properties(Value::from(1))
        .with_properties(Value::Null)
        .record_at("edit", "t");
    assert_eq!(record.log_name, "second");
    assert_eq!(record.subject_type.as_deref(), Some("comments"));
    assert_eq!(record.subject_id, Some(2));
    assert_eq!(record.causer_type.as_deref(), Some("admins"));
    assert_eq!(record.causer_id, Some(4));
    assert_eq!(record.properties.as_deref(), Some("null"));
}

#[test]
fn subject_and_causer_are_independent() {
    let rt = runtime();
    let db = pool(&rt);
    let only_subject = ActivityLogger::new(db.clone()).performed_on("posts", 9).record_at("d", "t");
    assert_eq!(only_subject.subject_type.as_deref(), Some("posts"));
    assert_eq!(only_subject.subject_id, Some(9));
    assert_eq!(only_subject.causer_type, None);
    assert_eq!(only_subject.causer_id, None);
    let only_causer = ActivityLogger::new(db).caused_by("users", -1).record_at("d", "t");
    assert_eq!(only_causer.subject_type, None);
    assert_eq!(only_causer.causer_id, Some(-1));
}

#[test]
fn record_now_uses_one_timestamp_for_both_columns() {
    let rt = runtime();
    let record = ActivityLogger::new(pool(&rt)).record("tick");
    assert_eq!(record.created_at, record.updated_at);
    assert!(record.created_at.len() >= 19);
    assert_eq!(&record.created_at[4..5], "-");
    assert_eq!(&record.created_at[10..11], " ");
}

#[test]
fn bind_values_follow_the_columns() {
    let rt = runtime();
    let record = ActivityLogger::new(pool(&rt))
        .use_log("orders")
        .performed_on("orders", 11)
        .record_at("Order placed", "2024-01-02 03:04:05");
    let values = record.bind_values();
    assert_eq!(values.len(), 9);
    assert_eq!(values[0], BindValue::Text("orders".to_string()));
    assert_eq!(values[1], BindValue::Text("Order placed".to_string()));
    assert_eq!(values[2], BindValue::Text("orders".to_string()));
    assert_eq!(values[3], BindValue::Integer(11));
    assert_eq!(values[4], BindValue::Null);
    assert_eq!(values[5], BindValue::Null);
    assert_eq!(values[6], BindValue::Null);
    assert_eq!(values[7], BindValue::Text("2024-01-02 03:04:05".to_string()));
    assert_eq!(values[8], BindValue::Text("2024-01-02 03:04:05".to_string()));
    assert_eq!(INSERT_ACTIVITY_SQL.matches('?').count(), values.len());
}

#[test]
fn insert_statement_names_the_columns_in_bind_order() {
    assert_eq!(
        INSERT_ACTIVITY_SQL,
        "INSERT INTO activity_log (log_name, description, subject_type, subject_id, causer_type, causer_id, properties, created_at, updated_at) VALUES (?, ?, ?, ?, ?, ?, ?, ?, ?)"
    );
}

#[test]
fn order_of_different_settings_does_not_matter() {
    let rt = runtime();
    let db = pool(&rt);
    let one = ActivityLogger::new(db.clone())
        .performed_on("posts", 1)
        .caused_by("users", 2)
        .use_log("blog")
        .with_properties(Value::from("x"))
        .record_at("d", "t");
    let other = ActivityLogger::new(db)
        .with_properties(Value::from("x"))
        .use_log("blog")
        .caused_by("users", 2)
        .performed_on("posts", 1)
        .record_at("d", "t");
    assert_eq!(one, other);
}
