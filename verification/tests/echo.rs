use echo_static::app_error::AppError;
use echo_static::echo::CreateUser;
use echo_static::echo::echo_outcome;
use echo_static::echo::get_handler;

fn pretty_by_collaborator(email: &str, password: &str) -> String {
    let mut entries = serde_json::Map::new();
    entries.insert(String::from("email"), serde_json::Value::String(email.to_string()));
    entries.insert(String::from("password"), serde_json::Value::String(password.to_string()));
    serde_json::to_string_pretty(&serde_json::Value::Object(entries)).unwrap()
}

#[test]
fn echo_returns_pretty_payload() {
    let payload = CreateUser { email: String::from("a@b.com"), password: String::from("x") };
    let body = get_handler(&payload).unwrap();
    assert_eq!(body, "{\n  \"email\": \"a@b.com\",\n  \"password\": \"x\"\n}");
    assert_eq!(body, pretty_by_collaborator("a@b.com", "x"));
}

#[test]
fn echo_is_idempotent_under_repeated_calls() {
    let payload = CreateUser { email: String::from("a@b.com"), password: String::from("x") };
    let first = get_handler(&payload).unwrap();
    let second = get_handler(&payload).unwrap();
    assert_eq!(first, second);
}

#[test]
fn echo_escapes_field_values() {
    let payload = CreateUser {
        email: String::from("quote\"in\\name@b.com"),
        password: String::from("line\nbreak\tand \u{2} control"),
    };
    let body = get_handler(&payload).unwrap();
    assert_eq!(body, pretty_by_collaborator("quote\"in\\name@b.com", "line\nbreak\tand \u{2} control"));
}

#[test]
fn echo_of_empty_fields() {
    let payload = CreateUser { email: String::new(), password: String::new() };
    let body = get_handler(&payload).unwrap();
    assert_eq!(body, "{\n  \"email\": \"\",\n  \"password\": \"\"\n}");
}

#[test]
fn serialization_failure_becomes_internal_error() {
    let r = echo_outcome(Err(String::from("cause")));
    match r {
        Err(AppError::InternalServerError(detail)) => assert_eq!(detail, "cause"),
        _ => panic!("expected an internal failure"),
    }
}
