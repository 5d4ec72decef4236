use rustobot::config::{Config, Environment};
use rustobot::error::{BotError, ErrorKind};

fn some(s: &str) -> Option<String> {
    Some(s.to_string())
}

fn full() -> Environment {
    Environment {
        database_url: some("postgres://a:b@c:1/d"),
        db_host: some("db.internal"),
        db_port: some("6543"),
        db_name: some("bot"),
        db_user: some("svc"),
        db_password: some("pw"),
        telegram_bot_token: some("token"),
        telegram_announcements_channel_id: some("-1001234567890"),
        telegram_logs_channel_id: some("-1009876543210"),
        azure_face_api_key: some("key"),
        azure_face_endpoint: some("https://face.example"),
        rust_env: some("production"),
    }
}

fn minimal() -> Environment {
    Environment {
        database_url: some("postgres://a:b@c:1/d"),
        db_host: None,
        db_port: None,
        db_name: None,
        db_user: None,
        db_password: None,
        telegram_bot_token: some("token"),
        telegram_announcements_channel_id: some("1"),
        telegram_logs_channel_id: some("2"),
        azure_face_api_key: some("key"),
        azure_face_endpoint: some("https://face.example"),
        rust_env: None,
    }
}

fn complaint(env: &Environment) -> String {
    match Config::from_values(env) {
        Err(BotError::ConfigError(text)) => text,
        other => panic!("expected a configuration error, got {:?}", other),
    }
}

#[test]
fn is_production_only_for_the_exact_name() {
    let mut env = full();
    assert!(Config::from_values(&env).unwrap().is_production());
    for name in ["development", "Production", "", "production "] {
        env.rust_env = some(name);
        assert!(!Config::from_values(&env).unwrap().is_production());
    }
    env.rust_env = None;
    assert!(!Config::from_values(&env).unwrap().is_production());
}

#[test]
fn every_value_given_is_taken() {
    let c = Config::from_values(&full()).unwrap();
    assert_eq!(c.database_url, "postgres://a:b@c:1/d");
    assert_eq!(c.db_host, "db.internal");
    assert_eq!(c.db_port, 6543);
    assert_eq!(c.db_name, "bot");
    assert_eq!(c.db_user, "svc");
    assert_eq!(c.db_password, "pw");
    assert_eq!(c.telegram_bot_token, "token");
    assert_eq!(c.telegram_announcements_channel_id, -1001234567890);
    assert_eq!(c.telegram_logs_channel_id, -1009876543210);
    assert_eq!(c.azure_face_api_key, "key");
    assert_eq!(c.azure_face_endpoint, "https://face.example");
    assert_eq!(c.rust_env, "production");
}

#[test]
fn defaults_fill_what_is_not_set() {
    let c = Config::from_values(&minimal()).unwrap();
    assert_eq!(c.db_host, "localhost");
    assert_eq!(c.db_port, 5432);
    assert_eq!(c.db_name, "telegram_bot");
    assert_eq!(c.db_user, "botuser");
    assert_eq!(c.db_password, "botpass");
    assert_eq!(c.rust_env, "development");
    assert_eq!(c.telegram_announcements_channel_id, 1);
    assert_eq!(c.telegram_logs_channel_id, 2);
}

#[test]
fn database_url_is_composed_of_its_parts() {
    let mut env = full();
    env.database_url = None;
    let c = Config::from_values(&env).unwrap();
    assert_eq!(c.database_url, "postgres://svc:pw@db.internal:6543/bot");
}

#[test]
fn missing_parts_of_the_database_url_are_named_in_order() {
    let mut env = minimal();
    env.database_url = None;
    assert_eq!(complaint(&env), "DB_USER not set");
    env.db_user = some("u");
    assert_eq!(complaint(&env), "DB_PASSWORD not set");
    env.db_password = some("p");
    assert_eq!(complaint(&env), "DB_HOST not set");
    env.db_host = some("h");
    assert_eq!(complaint(&env), "DB_PORT not set");
    env.db_port = some("not a port");
    assert_eq!(complaint(&env), "DB_NAME not set");
    env.db_name = some("n");
    assert_eq!(complaint(&env), "DB_PORT must be a valid u16");
    env.db_port = some("70000");
    assert_eq!(complaint(&env), "DB_PORT must be a valid u16");
    env.db_port = some("7000");
    assert_eq!(Config::from_values(&env).unwrap().database_url, "postgres://u:p@h:7000/n");
}

#[test]
fn required_values_are_named_in_order() {
    let mut env = full();
    env.telegram_bot_token = None;
    env.telegram_announcements_channel_id = None;
    env.telegram_logs_channel_id = None;
    env.azure_face_api_key = None;
    env.azure_face_endpoint = None;
    assert_eq!(complaint(&env), "TELEGRAM_BOT_TOKEN environment variable not set");
    env.telegram_bot_token = some("t");
    assert_eq!(complaint(&env), "TELEGRAM_ANNOUNCEMENTS_CHANNEL_ID not set");
    env.telegram_announcements_channel_id = some("12x");
    assert_eq!(complaint(&env), "TELEGRAM_ANNOUNCEMENTS_CHANNEL_ID must be a valid i64");
    env.telegram_announcements_channel_id = some("12");
    assert_eq!(complaint(&env), "TELEGRAM_LOGS_CHANNEL_ID not set");
    env.telegram_logs_channel_id = some("9223372036854775808");
    assert_eq!(complaint(&env), "TELEGRAM_LOGS_CHANNEL_ID must be a valid i64");
    env.telegram_logs_channel_id = some("-9223372036854775808");
    assert_eq!(complaint(&env), "AZURE_FACE_API_KEY not set");
    env.azure_face_api_key = some("k");
    assert_eq!(complaint(&env), "AZURE_FACE_ENDPOINT not set");
    env.azure_face_endpoint = some("e");
    assert_eq!(Config::from_values(&env).unwrap().telegram_logs_channel_id, i64::MIN);
}

#[test]
fn configuration_errors_read_as_text() {
    let mut env = full();
    env.azure_face_endpoint = None;
    let e = Config::from_values(&env).unwrap_err();
    assert_eq!(e.kind(), ErrorKind::Config);
    assert!(!e.is_retryable());
    assert_eq!(e.message(), "Configuration error: AZURE_FACE_ENDPOINT not set");
}
