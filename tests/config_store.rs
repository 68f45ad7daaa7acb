use dissent_config::codec::{
    conversation_from_json, conversations_from_json, find_member, member_keys_distinct,
    settings_from_json,
};
use dissent_config::{
    config_from_json, config_to_json, default_config, default_config_document, Config,
    ConfigError, ConfigState, Conversation, Json, Settings, CONFIG_FILE_PATH,
};

fn text(s: &str) -> Json {
    Json::Str(s.to_string())
}

fn member(k: &str, v: Json) -> (String, Json) {
    (k.to_string(), v)
}

fn conversation(seed: &str, start: &str, inc: &str, delay: &str) -> Conversation {
    Conversation {
        seed: seed.to_string(),
        random_start_index: start.to_string(),
        random_index_increment: inc.to_string(),
        base_delay: delay.to_string(),
    }
}

fn conversation_json(seed: &str, start: &str, inc: &str, delay: &str) -> Json {
    Json::Object(vec![
        member("seed", text(seed)),
        member("random-start-index", text(start)),
        member("random-index-increment", text(inc)),
        member("base-delay", text(delay)),
    ])
}

fn settings_json(count: &str, limit: &str, erase: bool) -> Json {
    Json::Object(vec![
        member("config_failed_decrypt_count", text(count)),
        member("config_failed_decrypt_limit", text(limit)),
        member("config_failed_decrypt_erase", Json::Bool(erase)),
    ])
}

fn document(settings: Json, conversations: Vec<(String, Json)>) -> Json {
    Json::Object(vec![
        member("settings", settings),
        member("conversations", Json::Object(conversations)),
    ])
}

fn find<'a>(c: &'a Config, id: &str) -> Option<&'a Conversation> {
    c.conversations.iter().find(|(k, _)| k == id).map(|(_, v)| v)
}

#[test]
fn default_config_holds_the_example_values() {
    let c = default_config();
    assert_eq!(c.settings.config_failed_decrypt_count, "0");
    assert_eq!(c.settings.config_failed_decrypt_limit, "5");
    assert!(c.settings.config_failed_decrypt_erase);
    assert_eq!(c.conversations.len(), 2);
    assert_eq!(
        find(&c, "conversation_uuid"),
        Some(&conversation("conversation_seed", "324", "33", "2h"))
    );
    assert_eq!(
        find(&c, "some_other_conversation_uuid"),
        Some(&conversation("conversation_seed", "324", "33", "5h"))
    );
}

#[test]
fn config_file_path_is_relative() {
    assert_eq!(CONFIG_FILE_PATH, "config/dissent-config.json");
}

#[test]
fn encoding_keeps_field_names_and_order() {
    let j = config_to_json(&default_config());
    let expected = document(
        settings_json("0", "5", true),
        vec![
            member("conversation_uuid", conversation_json("conversation_seed", "324", "33", "2h")),
            member(
                "some_other_conversation_uuid",
                conversation_json("conversation_seed", "324", "33", "5h"),
            ),
        ],
    );
    assert_eq!(j, expected);
}

#[test]
fn round_trip_keeps_every_field() {
    let c = Config {
        settings: Settings {
            config_failed_decrypt_count: "3".to_string(),
            config_failed_decrypt_limit: "10".to_string(),
            config_failed_decrypt_erase: false,
        },
        conversations: vec![
            ("a".to_string(), conversation("s1", "1", "2", "30m")),
            ("b".to_string(), conversation("", "", "", "")),
            ("c-d".to_string(), conversation("seed \"q\"", "007", "-1", "1d")),
        ],
    };
    let back = config_from_json(&config_to_json(&c)).unwrap();
    assert_eq!(back, c);
}

#[test]
fn round_trip_of_empty_conversations() {
    let c = Config {
        settings: Settings {
            config_failed_decrypt_count: "0".to_string(),
            config_failed_decrypt_limit: "0".to_string(),
            config_failed_decrypt_erase: true,
        },
        conversations: vec![],
    };
    assert_eq!(config_from_json(&config_to_json(&c)), Ok(c));
}

#[test]
fn decoding_ignores_unknown_members_and_order() {
    let j = Json::Object(vec![
        member("extra", Json::Null),
        member("conversations", Json::Object(vec![member("x", conversation_json("s", "1", "2", "3h"))])),
        member("settings", settings_json("1", "2", false)),
    ]);
    let c = config_from_json(&j).unwrap();
    assert_eq!(c.settings.config_failed_decrypt_count, "1");
    assert_eq!(c.settings.config_failed_decrypt_limit, "2");
    assert!(!c.settings.config_failed_decrypt_erase);
    assert_eq!(c.conversations, vec![("x".to_string(), conversation("s", "1", "2", "3h"))]);
}

#[test]
fn missing_settings_is_a_schema_error() {
    let j = Json::Object(vec![member("conversations", Json::Object(vec![]))]);
    assert_eq!(config_from_json(&j), Err(ConfigError::Schema("settings".to_string())));
}

#[test]
fn missing_conversation_field_is_a_schema_error() {
    let bad = Json::Object(vec![
        member("seed", text("s")),
        member("random-start-index", text("1")),
        member("random-index-increment", text("2")),
    ]);
    let j = document(settings_json("0", "5", true), vec![member("k", bad)]);
    assert_eq!(config_from_json(&j), Err(ConfigError::Schema("base-delay".to_string())));
}

#[test]
fn numeric_count_is_a_schema_error() {
    let s = Json::Object(vec![
        member("config_failed_decrypt_count", Json::Number("0".to_string())),
        member("config_failed_decrypt_limit", text("5")),
        member("config_failed_decrypt_erase", Json::Bool(true)),
    ]);
    assert_eq!(
        settings_from_json(&s),
        Err(ConfigError::Schema("config_failed_decrypt_count".to_string()))
    );
}

#[test]
fn string_erase_flag_is_a_schema_error() {
    let s = Json::Object(vec![
        member("config_failed_decrypt_count", text("0")),
        member("config_failed_decrypt_limit", text("5")),
        member("config_failed_decrypt_erase", text("true")),
    ]);
    assert!(matches!(settings_from_json(&s), Err(ConfigError::Schema(_))));
}

#[test]
fn snake_case_conversation_fields_are_rejected() {
    let j = Json::Object(vec![
        member("seed", text("s")),
        member("random_start_index", text("1")),
        member("random_index_increment", text("2")),
        member("base_delay", text("3h")),
    ]);
    assert!(matches!(conversation_from_json(&j), Err(ConfigError::Schema(_))));
}

#[test]
fn top_level_array_is_a_schema_error() {
    let j = Json::Array(vec![]);
    assert!(matches!(config_from_json(&j), Err(ConfigError::Schema(_))));
}

#[test]
fn repeated_conversation_key_is_a_schema_error() {
    let j = document(
        settings_json("0", "5", true),
        vec![
            member("k", conversation_json("a", "1", "1", "1h")),
            member("k", conversation_json("b", "2", "2", "2h")),
        ],
    );
    assert_eq!(config_from_json(&j), Err(ConfigError::Schema("conversations".to_string())));
}

#[test]
fn conversations_keep_their_order() {
    let members = vec![
        member("z", conversation_json("a", "1", "1", "1h")),
        member("a", conversation_json("b", "2", "2", "2h")),
    ];
    let v = conversations_from_json(&members).unwrap();
    assert_eq!(v[0].0, "z");
    assert_eq!(v[1].0, "a");
    assert_eq!(v[1].1.base_delay, "2h");
}

#[test]
fn find_member_takes_the_first_match() {
    let e = vec![member("a", text("1")), member("b", text("2")), member("a", text("3"))];
    assert_eq!(find_member(&e, "a"), Some(&text("1")));
    assert_eq!(find_member(&e, "b"), Some(&text("2")));
    assert_eq!(find_member(&e, "c"), None);
}

#[test]
fn member_keys_distinct_detects_repeats() {
    assert!(member_keys_distinct(&vec![]));
    assert!(member_keys_distinct(&vec![member("a", Json::Null), member("b", Json::Null)]));
    assert!(!member_keys_distinct(&vec![
        member("a", Json::Null),
        member("b", Json::Null),
        member("a", Json::Null)
    ]));
}

#[test]
fn get_before_load_is_not_loaded() {
    let state = ConfigState::new();
    let r = state.get_loaded_config();
    assert_eq!(r, Err(ConfigError::NotLoaded));
    assert_eq!(ConfigError::NotLoaded.message(), "No config loaded");
}

#[test]
fn create_then_load_gives_default() {
    let mut state = ConfigState::new();
    assert_eq!(state.load_config_into_memory(Ok(default_config_document())), Ok(()));
    let c = state.get_loaded_config().unwrap();
    assert_eq!(c, default_config());
    assert_eq!(find(&c, "conversation_uuid").unwrap().base_delay, "2h");
    assert_eq!(find(&c, "some_other_conversation_uuid").unwrap().base_delay, "5h");
}

#[test]
fn second_load_replaces_the_first() {
    let mut state = ConfigState::new();
    state.load_config_into_memory(Ok(default_config_document())).unwrap();
    let second = document(
        settings_json("2", "9", false),
        vec![member("only", conversation_json("x", "5", "6", "7h"))],
    );
    state.load_config_into_memory(Ok(second)).unwrap();
    let c = state.get_loaded_config().unwrap();
    assert_eq!(c.settings.config_failed_decrypt_limit, "9");
    assert_eq!(c.conversations, vec![("only".to_string(), conversation("x", "5", "6", "7h"))]);
    assert_eq!(find(&c, "conversation_uuid"), None);
}

#[test]
fn failed_parse_keeps_previous_state() {
    let mut state = ConfigState::new();
    state.load_config_into_memory(Ok(default_config_document())).unwrap();
    let err = ConfigError::Parse("expected value at line 1 column 1".to_string());
    assert_eq!(state.load_config_into_memory(Err(err.clone())), Err(err));
    assert_eq!(state.get_loaded_config().unwrap(), default_config());
}

#[test]
fn failed_schema_keeps_previous_state() {
    let mut state = ConfigState::new();
    state.load_config_into_memory(Ok(default_config_document())).unwrap();
    let bad = Json::Object(vec![member("settings", settings_json("1", "1", true))]);
    assert_eq!(
        state.load_config_into_memory(Ok(bad)),
        Err(ConfigError::Schema("conversations".to_string()))
    );
    assert_eq!(state.get_loaded_config().unwrap(), default_config());
}

#[test]
fn failed_first_load_stays_empty() {
    let mut state = ConfigState::new();
    let err = ConfigError::Io("No such file or directory (os error 2)".to_string());
    assert_eq!(state.load_config_into_memory(Err(err.clone())), Err(err));
    assert_eq!(state.get_loaded_config(), Err(ConfigError::NotLoaded));
}

#[test]
fn loaded_copy_is_independent() {
    let mut state = ConfigState::new();
    state.load_config_into_memory(Ok(default_config_document())).unwrap();
    let mut c = state.get_loaded_config().unwrap();
    c.settings.config_failed_decrypt_count = "4".to_string();
    c.conversations.clear();
    assert_eq!(state.get_loaded_config().unwrap(), default_config());
}

#[test]
fn error_messages() {
    assert_eq!(
        ConfigError::Schema("seed".to_string()).message(),
        "missing or invalid field: seed"
    );
    assert_eq!(ConfigError::Io("disk full".to_string()).message(), "disk full");
    assert_eq!(ConfigError::Lock("poisoned".to_string()).message(), "poisoned");
}
