use vstd::prelude::*;

use crate::config::{
    entries_map, keys_unique, Config, ConfigView, Conversation, ConversationView, Settings,
    SettingsView,
};

verus! {

/// A JSON document as a tree. Object members keep the order in which they
/// were written.
#[derive(Debug, PartialEq, Eq)]
pub enum Json {
    Null,
    Bool(bool),
    /// A number, kept as its decimal text.
    Number(String),
    Str(String),
    Array(Vec<Json>),
    Object(Vec<(String, Json)>),
}

/// Key of the settings object in a configuration document.
pub const SETTINGS_KEY: &'static str = "settings";

/// Key of the conversations object in a configuration document.
pub const CONVERSATIONS_KEY: &'static str = "conversations";

pub const COUNT_KEY: &'static str = "config_failed_decrypt_count";

pub const LIMIT_KEY: &'static str = "config_failed_decrypt_limit";

pub const ERASE_KEY: &'static str = "config_failed_decrypt_erase";

pub const SEED_KEY: &'static str = "seed";

pub const START_INDEX_KEY: &'static str = "random-start-index";

pub const INDEX_INCREMENT_KEY: &'static str = "random-index-increment";

pub const BASE_DELAY_KEY: &'static str = "base-delay";

/// The value of the first member of `e` named `k`.
pub open spec fn lookup(e: Seq<(String, Json)>, k: Seq<char>) -> Option<Json>
    decreases e.len(),
{
    if e.len() == 0 {
        None
    } else if e[0].0@ == k {
        Some(e[0].1)
    } else {
        lookup(e.subrange(1, e.len() as int), k)
    }
}

/// No two members of an object share a key.
pub open spec fn member_keys_unique(e: Seq<(String, Json)>) -> bool {
    forall|i: int, j: int| 0 <= i < j < e.len() ==> e[i].0@ != e[j].0@
}

/// The text of member `k`, when it is a string.
pub open spec fn text_member(e: Seq<(String, Json)>, k: Seq<char>) -> Option<Seq<char>> {
    match lookup(e, k) {
        Some(Json::Str(s)) => Some(s@),
        _ => None,
    }
}

/// The value of member `k`, when it is a boolean.
pub open spec fn bool_member(e: Seq<(String, Json)>, k: Seq<char>) -> Option<bool> {
    match lookup(e, k) {
        Some(Json::Bool(b)) => Some(b),
        _ => None,
    }
}

/// The settings that a JSON value describes, if it has the settings shape.
/// Members other than the three named ones are ignored.
pub open spec fn decode_settings(j: Json) -> Option<SettingsView> {
    match j {
        Json::Object(e) => {
            let count = text_member(e@, COUNT_KEY@);
            let limit = text_member(e@, LIMIT_KEY@);
            let erase = bool_member(e@, ERASE_KEY@);
            if count is Some && limit is Some && erase is Some {
                Some(SettingsView { count: count->0, limit: limit->0, erase: erase->0 })
            } else {
                None
            }
        },
        _ => None,
    }
}

/// The conversation that a JSON value describes, if it has the conversation
/// shape. Members other than the four named ones are ignored.
pub open spec fn decode_conversation(j: Json) -> Option<ConversationView> {
    match j {
        Json::Object(e) => {
            let seed = text_member(e@, SEED_KEY@);
            let start = text_member(e@, START_INDEX_KEY@);
            let inc = text_member(e@, INDEX_INCREMENT_KEY@);
            let delay = text_member(e@, BASE_DELAY_KEY@);
            if seed is Some && start is Some && inc is Some && delay is Some {
                Some(
                    ConversationView {
                        seed: seed->0,
                        random_start_index: start->0,
                        random_index_increment: inc->0,
                        base_delay: delay->0,
                    },
                )
            } else {
                None
            }
        },
        _ => None,
    }
}

/// The conversation map that the members of an object describe, if every
/// member is a conversation.
pub open spec fn decode_conversations(e: Seq<(String, Json)>) -> Option<
    Map<Seq<char>, ConversationView>,
>
    decreases e.len(),
{
    if e.len() == 0 {
        Some(Map::empty())
    } else {
        match (decode_conversations(e.drop_last()), decode_conversation(e.last().1)) {
            (Some(m), Some(c)) => Some(m.insert(e.last().0@, c)),
            _ => None,
        }
    }
}

/// The configuration that a JSON document describes, if it has the
/// configuration shape: an object whose `settings` member is a settings object
/// and whose `conversations` member is an object, without repeated keys, of
/// conversation objects.
pub open spec fn decode_config(j: Json) -> Option<ConfigView> {
    match j {
        Json::Object(e) => {
            let s = match lookup(e@, SETTINGS_KEY@) {
                Some(sj) => decode_settings(sj),
                None => None,
            };
            let m = match lookup(e@, CONVERSATIONS_KEY@) {
                Some(Json::Object(ce)) => if member_keys_unique(ce@) {
                    decode_conversations(ce@)
                } else {
                    None
                },
                _ => None,
            };
            if s is Some && m is Some {
                Some(ConfigView { settings: s->0, conversations: m->0 })
            } else {
                None
            }
        },
        _ => None,
    }
}

/// `j` is a JSON string holding `s`.
pub open spec fn is_text(j: Json, s: Seq<char>) -> bool {
    j matches Json::Str(t) && t@ == s
}

/// `j` is the object that encodes the settings `s`: its three members in
/// declaration order.
pub open spec fn encodes_settings(j: Json, s: SettingsView) -> bool {
    &&& j matches Json::Object(e)
    &&& e@.len() == 3
    &&& e@[0].0@ == COUNT_KEY@ && is_text(e@[0].1, s.count)
    &&& e@[1].0@ == LIMIT_KEY@ && is_text(e@[1].1, s.limit)
    &&& e@[2].0@ == ERASE_KEY@ && e@[2].1 == Json::Bool(s.erase)
}

/// `j` is the object that encodes the conversation `c`: its four members in
/// declaration order.
pub open spec fn encodes_conversation(j: Json, c: ConversationView) -> bool {
    &&& j matches Json::Object(e)
    &&& e@.len() == 4
    &&& e@[0].0@ == SEED_KEY@ && is_text(e@[0].1, c.seed)
    &&& e@[1].0@ == START_INDEX_KEY@ && is_text(e@[1].1, c.random_start_index)
    &&& e@[2].0@ == INDEX_INCREMENT_KEY@ && is_text(e@[2].1, c.random_index_increment)
    &&& e@[3].0@ == BASE_DELAY_KEY@ && is_text(e@[3].1, c.base_delay)
}

/// The members `ce` encode the entries `cs`, one for one and in order.
pub open spec fn encodes_entries(ce: Seq<(String, Json)>, cs: Seq<(String, Conversation)>) -> bool {
    &&& ce.len() == cs.len()
    &&& forall|i: int|
        0 <= i < cs.len() ==> #[trigger] ce[i].0@ == cs[i].0@ && encodes_conversation(
            ce[i].1,
            cs[i].1@,
        )
}

/// `j` is the document that encodes `c`: `settings` then `conversations`, the
/// conversations in the order of `c`'s entries.
pub open spec fn encodes_config(j: Json, c: Config) -> bool {
    &&& j matches Json::Object(e)
    &&& e@.len() == 2
    &&& e@[0].0@ == SETTINGS_KEY@ && encodes_settings(e@[0].1, c.settings@)
    &&& e@[1].0@ == CONVERSATIONS_KEY@
    &&& e@[1].1 matches Json::Object(ce)
    &&& encodes_entries(ce@, c.conversations@)
}

/// A member is found by its key when no earlier member has that key.
pub proof fn lemma_lookup_first(e: Seq<(String, Json)>, i: int)
    requires
        0 <= i < e.len(),
        forall|j: int| 0 <= j < i ==> e[j].0@ != e[i].0@,
    ensures
        lookup(e, e[i].0@) == Some(e[i].1),
    decreases i,
{
    if i > 0 {
        let t = e.subrange(1, e.len() as int);
        assert(t[i - 1] == e[i]);
        assert forall|j: int| 0 <= j < i - 1 implies #[trigger] t[j].0@ != t[i - 1].0@ by {
            assert(t[j] == e[j + 1]);
        }
        lemma_lookup_first(t, i - 1);
    }
}

proof fn lemma_keys_distinct()
    ensures
        COUNT_KEY@ != LIMIT_KEY@,
        COUNT_KEY@ != ERASE_KEY@,
        LIMIT_KEY@ != ERASE_KEY@,
        SEED_KEY@ != START_INDEX_KEY@,
        SEED_KEY@ != INDEX_INCREMENT_KEY@,
        SEED_KEY@ != BASE_DELAY_KEY@,
        START_INDEX_KEY@ != INDEX_INCREMENT_KEY@,
        START_INDEX_KEY@ != BASE_DELAY_KEY@,
        INDEX_INCREMENT_KEY@ != BASE_DELAY_KEY@,
        SETTINGS_KEY@ != CONVERSATIONS_KEY@,
{
    reveal_strlit("config_failed_decrypt_count");
    reveal_strlit("config_failed_decrypt_limit");
    reveal_strlit("config_failed_decrypt_erase");
    reveal_strlit("seed");
    reveal_strlit("random-start-index");
    reveal_strlit("random-index-increment");
    reveal_strlit("base-delay");
    reveal_strlit("settings");
    reveal_strlit("conversations");
    assert(SEED_KEY@.len() == 4);
    assert(START_INDEX_KEY@.len() == 18);
    assert(INDEX_INCREMENT_KEY@.len() == 22);
    assert(BASE_DELAY_KEY@.len() == 10);
    assert(SETTINGS_KEY@.len() == 8);
    assert(CONVERSATIONS_KEY@.len() == 13);
    assert(COUNT_KEY@[22] != LIMIT_KEY@[22]);
    assert(COUNT_KEY@[22] != ERASE_KEY@[22]);
    assert(LIMIT_KEY@[22] != ERASE_KEY@[22]);
}

/// Decoding the encoding of settings gives them back.
pub proof fn lemma_settings_round_trip(j: Json, s: SettingsView)
    requires
        encodes_settings(j, s),
    ensures
        decode_settings(j) == Some(s),
{
    lemma_keys_distinct();
    let e = j->Object_0@;
    lemma_lookup_first(e, 0);
    lemma_lookup_first(e, 1);
    lemma_lookup_first(e, 2);
}

/// Decoding the encoding of a conversation gives it back.
pub proof fn lemma_conversation_round_trip(j: Json, c: ConversationView)
    requires
        encodes_conversation(j, c),
    ensures
        decode_conversation(j) == Some(c),
{
    lemma_keys_distinct();
    let e = j->Object_0@;
    lemma_lookup_first(e, 0);
    lemma_lookup_first(e, 1);
    lemma_lookup_first(e, 2);
    lemma_lookup_first(e, 3);
}

/// Decoding the encoding of a list of entries gives the map that they stand for.
pub proof fn lemma_entries_round_trip(ce: Seq<(String, Json)>, cs: Seq<(String, Conversation)>)
    requires
        encodes_entries(ce, cs),
    ensures
        decode_conversations(ce) == Some(entries_map(cs)),
    decreases ce.len(),
{
    if ce.len() > 0 {
        let n = ce.len() - 1;
        assert(encodes_entries(ce.drop_last(), cs.drop_last())) by {
            assert forall|i: int| 0 <= i < n implies #[trigger] ce.drop_last()[i].0@
                == cs.drop_last()[i].0@ && encodes_conversation(
                ce.drop_last()[i].1,
                cs.drop_last()[i].1@,
            ) by {
                assert(ce[i].0@ == cs[i].0@);
            }
        }
        lemma_entries_round_trip(ce.drop_last(), cs.drop_last());
        assert(ce[n].0@ == cs[n].0@);
        lemma_conversation_round_trip(ce.last().1, cs.last().1@);
    }
}

/// Round trip: decoding the JSON encoding of a well-formed configuration gives
/// back a configuration equal to it in every field and every conversation.
pub proof fn lemma_round_trip(c: Config, j: Json)
    requires
        c.wf(),
        encodes_config(j, c),
    ensures
        decode_config(j) == Some(c@),
{
    lemma_keys_distinct();
    let e = j->Object_0@;
    lemma_lookup_first(e, 0);
    lemma_lookup_first(e, 1);
    lemma_settings_round_trip(e[0].1, c.settings@);
    let ce = e[1].1->Object_0@;
    lemma_entries_round_trip(ce, c.conversations@);
    assert(member_keys_unique(ce)) by {
        assert forall|a: int, b: int| 0 <= a < b < ce.len() implies ce[a].0@ != ce[b].0@ by {
            assert(ce[a].0@ == c.conversations@[a].0@);
            assert(ce[b].0@ == c.conversations@[b].0@);
        }
    }
}

} // verus!
