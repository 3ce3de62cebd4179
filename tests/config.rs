use queue_scheduler::config::{
    database_url, pusher_app_id, pusher_host, pusher_key, pusher_secret, require_str,
    MissingSetting, DATABASE_URL_VAR, PUSHER_APP_ID_VAR, PUSHER_HOST_VAR, PUSHER_KEY_VAR,
    PUSHER_SECRET_VAR,
};

fn env(pairs: &[(&str, &str)]) -> Vec<(String, String)> {
    pairs.iter().map(|(k, v)| (k.to_string(), v.to_string())).collect()
}

fn missing_name(r: Result<String, MissingSetting>) -> String {
    match r {
        Ok(v) => panic!("expected a missing setting, got {:?}", v),
        Err(e) => e.name,
    }
}

#[test]
fn app_id_round_trip() {
    let vars = env(&[("DARK_CONFIG_PUSHER_APP_ID", "abc123")]);
    assert_eq!(pusher_app_id(&vars).ok(), Some("abc123".to_string()));
}

#[test]
fn unset_key_names_itself() {
    let vars = env(&[("DARK_CONFIG_PUSHER_APP_ID", "abc123")]);
    let err = pusher_key(&vars).err().expect("the key is unset");
    assert_eq!(err.name, "DARK_CONFIG_PUSHER_KEY");
    assert!(err.message().contains("DARK_CONFIG_PUSHER_KEY must be set"));
    assert_eq!(err.message(), "DARK_CONFIG_PUSHER_KEY must be set");
}

#[test]
fn each_accessor_reads_its_own_variable() {
    let vars = env(&[
        ("DARK_CONFIG_PUSHER_APP_ID", "id"),
        ("DARK_CONFIG_PUSHER_KEY", "key"),
        ("DARK_CONFIG_PUSHER_SECRET", "secret"),
        ("DARK_CONFIG_PUSHER_HOST", "push.example.com"),
        ("DATABASE_URL", "postgres://localhost/db"),
    ]);
    assert_eq!(pusher_app_id(&vars).ok().as_deref(), Some("id"));
    assert_eq!(pusher_key(&vars).ok().as_deref(), Some("key"));
    assert_eq!(pusher_secret(&vars).ok().as_deref(), Some("secret"));
    assert_eq!(pusher_host(&vars).ok().as_deref(), Some("push.example.com"));
    assert_eq!(database_url(&vars).ok().as_deref(), Some("postgres://localhost/db"));
}

#[test]
fn each_accessor_fails_on_an_empty_environment() {
    let vars = env(&[]);
    assert_eq!(missing_name(pusher_app_id(&vars)), PUSHER_APP_ID_VAR);
    assert_eq!(missing_name(pusher_key(&vars)), PUSHER_KEY_VAR);
    assert_eq!(missing_name(pusher_secret(&vars)), PUSHER_SECRET_VAR);
    assert_eq!(missing_name(pusher_host(&vars)), PUSHER_HOST_VAR);
    assert_eq!(missing_name(database_url(&vars)), DATABASE_URL_VAR);
}

#[test]
fn empty_value_is_a_value() {
    let vars = env(&[("DARK_CONFIG_PUSHER_SECRET", "")]);
    assert_eq!(pusher_secret(&vars).ok(), Some(String::new()));
}

#[test]
fn require_str_reads_any_name() {
    let vars = env(&[("A", "1"), ("B", "2")]);
    assert_eq!(require_str(&vars, "B").ok().as_deref(), Some("2"));
    assert_eq!(missing_name(require_str(&vars, "C")), "C");
    assert_eq!(require_str(&vars, "C").err().unwrap().message(), "C must be set");
}

#[test]
fn names_match_exactly() {
    let vars = env(&[("DARK_CONFIG_PUSHER_HOS", "x"), ("dark_config_pusher_host", "y")]);
    assert_eq!(missing_name(pusher_host(&vars)), "DARK_CONFIG_PUSHER_HOST");
}

#[test]
fn first_entry_of_a_name_wins() {
    let vars = env(&[("DARK_CONFIG_PUSHER_KEY", "first"), ("DARK_CONFIG_PUSHER_KEY", "second")]);
    assert_eq!(pusher_key(&vars).ok().as_deref(), Some("first"));
}
