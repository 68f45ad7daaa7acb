use vstd::prelude::*;

verus! {

/// Decrypt-failure bookkeeping policy. The counts are kept as text, exactly as
/// they appear in the configuration file.
#[derive(Debug, Clone, PartialEq, Eq)]
pub struct Settings {
    pub config_failed_decrypt_count: String,
    pub config_failed_decrypt_limit: String,
    pub config_failed_decrypt_erase: bool,
}

/// Mathematical model of [`Settings`].
pub struct SettingsView {
    pub count: Seq<char>,
    pub limit: Seq<char>,
    pub erase: bool,
}

impl View for Settings {
    type V = SettingsView;

    open spec fn view(&self) -> SettingsView {
        SettingsView {
            count: self.config_failed_decrypt_count@,
            limit: self.config_failed_decrypt_limit@,
            erase: self.config_failed_decrypt_erase,
        }
    }
}

impl Settings {
    /// A field-by-field copy.
    pub fn copy(&self) -> (r: Settings)
        ensures
            r@ == self@,
    {
        Settings {
            config_failed_decrypt_count: self.config_failed_decrypt_count.clone(),
            config_failed_decrypt_limit: self.config_failed_decrypt_limit.clone(),
            config_failed_decrypt_erase: self.config_failed_decrypt_erase,
        }
    }
}

/// The parameters of one conversation's deterministic index sequence. All
/// fields are kept as text, exactly as they appear in the configuration file.
#[derive(Debug, Clone, PartialEq, Eq)]
pub struct Conversation {
    pub seed: String,
    pub random_start_index: String,
    pub random_index_increment: String,
    pub base_delay: String,
}

/// Mathematical model of [`Conversation`].
pub struct ConversationView {
    pub seed: Seq<char>,
    pub random_start_index: Seq<char>,
    pub random_index_increment: Seq<char>,
    pub base_delay: Seq<char>,
}

impl View for Conversation {
    type V = ConversationView;

    open spec fn view(&self) -> ConversationView {
        ConversationView {
            seed: self.seed@,
            random_start_index: self.random_start_index@,
            random_index_increment: self.random_index_increment@,
            base_delay: self.base_delay@,
        }
    }
}

impl Conversation {
    /// A field-by-field copy.
    pub fn copy(&self) -> (r: Conversation)
        ensures
            r@ == self@,
    {
        Conversation {
            seed: self.seed.clone(),
            random_start_index: self.random_start_index.clone(),
            random_index_increment: self.random_index_increment.clone(),
            base_delay: self.base_delay.clone(),
        }
    }
}

/// The map that a list of (identifier, conversation) entries stands for.
pub open spec fn entries_map(s: Seq<(String, Conversation)>) -> Map<Seq<char>, ConversationView>
    decreases s.len(),
{
    if s.len() == 0 {
        Map::empty()
    } else {
        entries_map(s.drop_last()).insert(s.last().0@, s.last().1@)
    }
}

/// No two entries share an identifier.
pub open spec fn keys_unique(s: Seq<(String, Conversation)>) -> bool {
    forall|i: int, j: int| 0 <= i < j < s.len() ==> s[i].0@ != s[j].0@
}

/// The whole persisted document: settings plus the conversations, keyed by
/// caller-chosen identifiers.
#[derive(Debug, Clone, PartialEq, Eq)]
pub struct Config {
    pub settings: Settings,
    pub conversations: Vec<(String, Conversation)>,
}

/// Mathematical model of [`Config`].
pub struct ConfigView {
    pub settings: SettingsView,
    pub conversations: Map<Seq<char>, ConversationView>,
}

impl View for Config {
    type V = ConfigView;

    open spec fn view(&self) -> ConfigView {
        ConfigView { settings: self.settings@, conversations: entries_map(self.conversations@) }
    }
}

impl Config {
    /// Identifiers of the conversations are unique.
    pub open spec fn wf(&self) -> bool {
        keys_unique(self.conversations@)
    }

    /// A deep copy: the result shares nothing with `self`.
    pub fn copy(&self) -> (r: Config)
        requires
            self.wf(),
        ensures
            r@ == self@,
            r.wf(),
            r.conversations@.len() == self.conversations@.len(),
            forall|i: int|
                0 <= i < self.conversations@.len() ==> (#[trigger] r.conversations@[i]).0@
                    == self.conversations@[i].0@ && r.conversations@[i].1@
                    == self.conversations@[i].1@,
    {
        let mut out: Vec<(String, Conversation)> = Vec::new();
        let n = self.conversations.len();
        let mut i: usize = 0;
        while i < n
            invariant
                n == self.conversations@.len(),
                i <= n,
                out@.len() == i,
                forall|j: int|
                    0 <= j < i ==> (#[trigger] out@[j]).0@ == self.conversations@[j].0@
                        && out@[j].1@ == self.conversations@[j].1@,
                entries_map(out@) == entries_map(self.conversations@.take(i as int)),
            decreases n - i,
        {
            let e = &self.conversations[i];
            let k = e.0.clone();
            let c = e.1.copy();
            let ghost prev = out@;
            out.push((k, c));
            proof {
                let t = self.conversations@.take(i as int + 1);
                assert(t.drop_last() =~= self.conversations@.take(i as int));
                assert(out@.drop_last() =~= prev);
            }
            i = i + 1;
        }
        proof {
            assert(self.conversations@.take(n as int) =~= self.conversations@);
        }
        Config { settings: self.settings.copy(), conversations: out }
    }
}

/// Identifier of the first example conversation of the default configuration.
pub const FIRST_CONVERSATION_ID: &'static str = "conversation_uuid";

/// Identifier of the second example conversation of the default configuration.
pub const SECOND_CONVERSATION_ID: &'static str = "some_other_conversation_uuid";

/// The example conversation of the default configuration with the given delay.
pub open spec fn example_conversation(delay: Seq<char>) -> ConversationView {
    ConversationView {
        seed: "conversation_seed"@,
        random_start_index: "324"@,
        random_index_increment: "33"@,
        base_delay: delay,
    }
}

/// The configuration that a fresh configuration file holds.
pub open spec fn default_config_view() -> ConfigView {
    ConfigView {
        settings: SettingsView { count: "0"@, limit: "5"@, erase: true },
        conversations: Map::empty().insert(
            FIRST_CONVERSATION_ID@,
            example_conversation("2h"@),
        ).insert(SECOND_CONVERSATION_ID@, example_conversation("5h"@)),
    }
}

fn example_entry(id: &str, delay: &str) -> (r: (String, Conversation))
    ensures
        r.0@ == id@,
        r.1@ == example_conversation(delay@),
{
    proof {
        reveal_strlit("conversation_seed");
        reveal_strlit("324");
        reveal_strlit("33");
    }
    (
        String::from_str(id),
        Conversation {
            seed: String::from_str("conversation_seed"),
            random_start_index: String::from_str("324"),
            random_index_increment: String::from_str("33"),
            base_delay: String::from_str(delay),
        },
    )
}

/// Builds the default configuration: settings with count "0", limit "5" and
/// erase on, and two example conversations with delays "2h" and "5h".
pub fn default_config() -> (r: Config)
    ensures
        r.wf(),
        r@ == default_config_view(),
{
    proof {
        reveal_strlit("0");
        reveal_strlit("5");
        reveal_strlit("2h");
        reveal_strlit("5h");
        reveal_strlit("conversation_uuid");
        reveal_strlit("some_other_conversation_uuid");
    }
    let settings = Settings {
        config_failed_decrypt_count: String::from_str("0"),
        config_failed_decrypt_limit: String::from_str("5"),
        config_failed_decrypt_erase: true,
    };
    let mut conversations: Vec<(String, Conversation)> = Vec::new();
    conversations.push(example_entry(FIRST_CONVERSATION_ID, "2h"));
    conversations.push(example_entry(SECOND_CONVERSATION_ID, "5h"));
    proof {
        let s = conversations@;
        assert(s.drop_last().drop_last() =~= Seq::<(String, Conversation)>::empty());
        assert(entries_map(s.drop_last()) == entries_map(s.drop_last().drop_last()).insert(
            s[0].0@,
            s[0].1@,
        ));
        assert(entries_map(s) == entries_map(s.drop_last()).insert(s[1].0@, s[1].1@));
        assert(entries_map(s) =~= default_config_view().conversations);
        assert(conversations@[0].0@ != conversations@[1].0@) by {
            assert(conversations@[0].0@.len() != conversations@[1].0@.len());
        }
    }
    Config { settings, conversations }
}

} // verus!
