use vstd::prelude::*;

use crate::config::{entries_map, keys_unique, Config, Conversation, Settings};
use crate::error::ConfigError;
use crate::json::{
    bool_member, decode_config, decode_conversation, decode_conversations, decode_settings,
    encodes_config, encodes_conversation, encodes_entries, encodes_settings, lookup, member_keys_unique,
    text_member, Json, BASE_DELAY_KEY, CONVERSATIONS_KEY, COUNT_KEY, ERASE_KEY,
    INDEX_INCREMENT_KEY, LIMIT_KEY, SEED_KEY, SETTINGS_KEY, START_INDEX_KEY,
};

verus! {

/// The value of the first member of `e` named `k`.
pub fn find_member<'a>(e: &'a Vec<(String, Json)>, k: &str) -> (r: Option<&'a Json>)
    ensures
        match r {
            Some(v) => lookup(e@, k@) == Some(*v),
            None => lookup(e@, k@) is None,
        },
{
    let key = String::from_str(k);
    let n = e.len();
    let mut i: usize = 0;
    assert(e@.subrange(0, n as int) =~= e@);
    while i < n
        invariant
            n == e@.len(),
            i <= n,
            key@ == k@,
            lookup(e@, k@) == lookup(e@.subrange(i as int, n as int), k@),
        decreases n - i,
    {
        let t = Ghost(e@.subrange(i as int, n as int));
        assert(t@[0] == e@[i as int]);
        if e[i].0 == key {
            return Some(&e[i].1);
        }
        assert(t@.subrange(1, t@.len() as int) =~= e@.subrange(i + 1, n as int));
        i = i + 1;
    }
    None
}

/// Whether no two members of `e` share a key.
pub fn member_keys_distinct(e: &Vec<(String, Json)>) -> (r: bool)
    ensures
        r == member_keys_unique(e@),
{
    let n = e.len();
    let mut i: usize = 0;
    while i < n
        invariant
            n == e@.len(),
            i <= n,
            forall|a: int, b: int| 0 <= a < i && a < b < n ==> e@[a].0@ != e@[b].0@,
        decreases n - i,
    {
        let mut j: usize = i + 1;
        while j < n
            invariant
                n == e@.len(),
                i < n,
                i < j <= n,
                forall|a: int, b: int| 0 <= a < i && a < b < n ==> e@[a].0@ != e@[b].0@,
                forall|b: int| i < b < j ==> e@[i as int].0@ != e@[b].0@,
            decreases n - j,
        {
            if e[i].0 == e[j].0 {
                return false;
            }
            j = j + 1;
        }
        i = i + 1;
    }
    true
}

fn text_member_of(e: &Vec<(String, Json)>, k: &str) -> (r: Result<String, ConfigError>)
    ensures
        match text_member(e@, k@) {
            Some(s) => r matches Ok(x) && x@ == s,
            None => r matches Err(ConfigError::Schema(_)),
        },
{
    match find_member(e, k) {
        Some(Json::Str(s)) => Ok(s.clone()),
        _ => Err(ConfigError::Schema(String::from_str(k))),
    }
}

fn bool_member_of(e: &Vec<(String, Json)>, k: &str) -> (r: Result<bool, ConfigError>)
    ensures
        match bool_member(e@, k@) {
            Some(b) => r == Ok::<bool, ConfigError>(b),
            None => r matches Err(ConfigError::Schema(_)),
        },
{
    match find_member(e, k) {
        Some(Json::Bool(b)) => Ok(*b),
        _ => Err(ConfigError::Schema(String::from_str(k))),
    }
}

/// Reads the settings out of a settings object.
pub fn settings_from_json(j: &Json) -> (r: Result<Settings, ConfigError>)
    ensures
        match decode_settings(*j) {
            Some(s) => r matches Ok(x) && x@ == s,
            None => r matches Err(ConfigError::Schema(_)),
        },
{
    match j {
        Json::Object(e) => {
            let count = text_member_of(e, COUNT_KEY)?;
            let limit = text_member_of(e, LIMIT_KEY)?;
            let erase = bool_member_of(e, ERASE_KEY)?;
            Ok(
                Settings {
                    config_failed_decrypt_count: count,
                    config_failed_decrypt_limit: limit,
                    config_failed_decrypt_erase: erase,
                },
            )
        },
        _ => Err(ConfigError::Schema(String::from_str(SETTINGS_KEY))),
    }
}

/// Reads one conversation out of a conversation object.
pub fn conversation_from_json(j: &Json) -> (r: Result<Conversation, ConfigError>)
    ensures
        match decode_conversation(*j) {
            Some(c) => r matches Ok(x) && x@ == c,
            None => r matches Err(ConfigError::Schema(_)),
        },
{
    match j {
        Json::Object(e) => {
            let seed = text_member_of(e, SEED_KEY)?;
            let start = text_member_of(e, START_INDEX_KEY)?;
            let inc = text_member_of(e, INDEX_INCREMENT_KEY)?;
            let delay = text_member_of(e, BASE_DELAY_KEY)?;
            Ok(
                Conversation {
                    seed,
                    random_start_index: start,
                    random_index_increment: inc,
                    base_delay: delay,
                },
            )
        },
        _ => Err(ConfigError::Schema(String::from_str(CONVERSATIONS_KEY))),
    }
}

/// Once a prefix of the members fails to decode, the whole list does.
proof fn lemma_decode_prefix_fails(e: Seq<(String, Json)>, m: int)
    requires
        0 <= m <= e.len(),
        decode_conversations(e.take(m)) is None,
    ensures
        decode_conversations(e) is None,
    decreases e.len(),
{
    if m == e.len() {
        assert(e.take(m) =~= e);
    } else {
        assert(e.drop_last().take(m) =~= e.take(m));
        lemma_decode_prefix_fails(e.drop_last(), m);
    }
}

/// Reads the conversation entries out of the members of the conversations
/// object, in order.
pub fn conversations_from_json(ce: &Vec<(String, Json)>) -> (r: Result<
    Vec<(String, Conversation)>,
    ConfigError,
>)
    requires
        member_keys_unique(ce@),
    ensures
        match decode_conversations(ce@) {
            Some(m) => r matches Ok(v) && keys_unique(v@) && entries_map(v@) == m,
            None => r matches Err(ConfigError::Schema(_)),
        },
{
    let n = ce.len();
    let mut out: Vec<(String, Conversation)> = Vec::new();
    let mut i: usize = 0;
    assert(ce@.take(0) =~= Seq::<(String, Json)>::empty());
    while i < n
        invariant
            n == ce@.len(),
            i <= n,
            out@.len() == i,
            forall|j: int| 0 <= j < i ==> (#[trigger] out@[j]).0@ == ce@[j].0@,
            decode_conversations(ce@.take(i as int)) == Some(entries_map(out@)),
        decreases n - i,
    {
        let ghost t = ce@.take(i as int + 1);
        assert(t.drop_last() =~= ce@.take(i as int));
        let c = match conversation_from_json(&ce[i].1) {
            Ok(c) => c,
            Err(err) => {
                proof {
                    lemma_decode_prefix_fails(ce@, i as int + 1);
                }
                return Err(err);
            },
        };
        let ghost prev = out@;
        out.push((ce[i].0.clone(), c));
        assert(out@.drop_last() =~= prev);
        i = i + 1;
    }
    assert(ce@.take(n as int) =~= ce@);
    Ok(out)
}

/// Reads a configuration out of a JSON document.
pub fn config_from_json(j: &Json) -> (r: Result<Config, ConfigError>)
    ensures
        match decode_config(*j) {
            Some(c) => r matches Ok(x) && x.wf() && x@ == c,
            None => r matches Err(ConfigError::Schema(_)),
        },
{
    match j {
        Json::Object(e) => {
            let settings = match find_member(e, SETTINGS_KEY) {
                Some(sj) => settings_from_json(sj),
                None => Err(ConfigError::Schema(String::from_str(SETTINGS_KEY))),
            };
            let conversations = match find_member(e, CONVERSATIONS_KEY) {
                Some(Json::Object(ce)) => if member_keys_distinct(ce) {
                    conversations_from_json(ce)
                } else {
                    Err(ConfigError::Schema(String::from_str(CONVERSATIONS_KEY)))
                },
                _ => Err(ConfigError::Schema(String::from_str(CONVERSATIONS_KEY))),
            };
            let settings = settings?;
            let conversations = conversations?;
            Ok(Config { settings, conversations })
        },
        _ => Err(ConfigError::Schema(String::from_str(SETTINGS_KEY))),
    }
}

fn member(k: &str, v: Json) -> (r: (String, Json))
    ensures
        r.0@ == k@,
        r.1 == v,
{
    (String::from_str(k), v)
}

/// The settings object: its three members in declaration order.
pub fn settings_to_json(s: &Settings) -> (r: Json)
    ensures
        encodes_settings(r, s@),
{
    let mut e: Vec<(String, Json)> = Vec::new();
    e.push(member(COUNT_KEY, Json::Str(s.config_failed_decrypt_count.clone())));
    e.push(member(LIMIT_KEY, Json::Str(s.config_failed_decrypt_limit.clone())));
    e.push(member(ERASE_KEY, Json::Bool(s.config_failed_decrypt_erase)));
    Json::Object(e)
}

/// The conversation object: its four members in declaration order.
pub fn conversation_to_json(c: &Conversation) -> (r: Json)
    ensures
        encodes_conversation(r, c@),
{
    let mut e: Vec<(String, Json)> = Vec::new();
    e.push(member(SEED_KEY, Json::Str(c.seed.clone())));
    e.push(member(START_INDEX_KEY, Json::Str(c.random_start_index.clone())));
    e.push(member(INDEX_INCREMENT_KEY, Json::Str(c.random_index_increment.clone())));
    e.push(member(BASE_DELAY_KEY, Json::Str(c.base_delay.clone())));
    Json::Object(e)
}

/// The configuration document: `settings`, then `conversations` with one
/// member per entry, in the order of the entries.
pub fn config_to_json(c: &Config) -> (r: Json)
    ensures
        encodes_config(r, *c),
{
    let n = c.conversations.len();
    let mut ce: Vec<(String, Json)> = Vec::new();
    let mut i: usize = 0;
    while i < n
        invariant
            n == c.conversations@.len(),
            i <= n,
            ce@.len() == i,
            forall|j: int|
                0 <= j < i ==> #[trigger] ce@[j].0@ == c.conversations@[j].0@
                    && encodes_conversation(ce@[j].1, c.conversations@[j].1@),
        decreases n - i,
    {
        let entry = &c.conversations[i];
        ce.push((entry.0.clone(), conversation_to_json(&entry.1)));
        i = i + 1;
    }
    assert(encodes_entries(ce@, c.conversations@));
    let mut e: Vec<(String, Json)> = Vec::new();
    e.push(member(SETTINGS_KEY, settings_to_json(&c.settings)));
    e.push(member(CONVERSATIONS_KEY, Json::Object(ce)));
    Json::Object(e)
}

} // verus!
