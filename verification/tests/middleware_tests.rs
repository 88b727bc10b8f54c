use rustbasic_activitylog::json::to_json_text;
use rustbasic_activitylog::middleware::{request_activity, request_description, request_properties};
use rustbasic_core::sql::AnyPool;
use rustbasic_core::tokio::runtime::{Builder, Runtime};

fn runtime() -> Runtime {
    Builder::new_current_thread().enable_all().build().unwrap()
}

fn pool(rt: &Runtime) -> AnyPool {
    rt.block_on(AnyPool::connect("sqlite::memory:")).unwrap()
}

#[test]
fn description_is_method_and_path() {
    assert_eq!(request_description("GET", "/dashboard"), "GET /dashboard");
    assert_eq!(request_description("POST", ""), "POST ");
}

#[test]
fn properties_hold_method_uri_status_and_duration() {
    let properties = request_properties("GET", "/dashboard", 200, 12);
    assert_eq!(
        to_json_text(&properties),
        "{\"duration_ms\":12,\"method\":\"GET\",\"status\":200,\"uri\":\"/dashboard\"}"
    );
}

#[test]
fn properties_escape_the_path() {
    let properties = request_properties("GET", "/a\"b", 404, 0);
    assert_eq!(
        to_json_text(&properties),
        "{\"duration_ms\":0,\"method\":\"GET\",\"status\":404,\"uri\":\"/a\\\"b\"}"
    );
}

#[test]
fn request_of_signed_in_user_is_caused_by_the_user() {
    let rt = runtime();
    let (logger, description) = request_activity(pool(&rt), "POST", "/login", 302, 5, Some(17));
    assert_eq!(description, "POST /login");
    let record = logger.record_at(&description, "2024-01-01 00:00:00");
    assert_eq!(record.log_name, "http_request");
    assert_eq!(record.description, "POST /login");
    assert_eq!(record.causer_type.as_deref(), Some("users"));
    assert_eq!(record.causer_id, Some(17));
    assert_eq!(record.subject_type, None);
    assert_eq!(record.subject_id, None);
    assert_eq!(
        record.properties.as_deref(),
        Some("{\"duration_ms\":5,\"method\":\"POST\",\"status\":302,\"uri\":\"/login\"}")
    );
}

#[test]
fn anonymous_request_has_no_causer() {
    let rt = runtime();
    let (logger, description) = request_activity(pool(&rt), "GET", "/", 200, 1, None);
    let record = logger.record_at(&description, "t");
    assert_eq!(record.description, "GET /");
    assert_eq!(record.causer_type, None);
    assert_eq!(record.causer_id, None);
    assert_eq!(record.log_name, "http_request");
}
