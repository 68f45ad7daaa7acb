use vstd::prelude::*;

use crate::codec::{config_from_json, config_to_json};
use crate::config::{default_config, default_config_view, Config, ConfigView};
use crate::error::ConfigError;
use crate::json::{decode_config, encodes_config, lemma_round_trip, Json};

verus! {

/// Where the configuration file lives, relative to the working directory.
pub const CONFIG_FILE_PATH: &'static str = "config/dissent-config.json";

/// `j` is the document that a fresh configuration file holds: the encoding of
/// the default configuration.
pub open spec fn is_default_document(j: Json) -> bool {
    exists|c: Config| c.wf() && c@ == default_config_view() && #[trigger] encodes_config(j, c)
}

/// The document that a fresh configuration file holds.
pub fn default_config_document() -> (r: Json)
    ensures
        is_default_document(r),
        decode_config(r) == Some(default_config_view()),
{
    let c = default_config();
    let r = config_to_json(&c);
    proof {
        lemma_round_trip(c, r);
    }
    r
}

/// What the loaded configuration is after a load of `document`: the document's
/// configuration when it has the configuration's shape, else what it was.
pub open spec fn load_step(before: Option<ConfigView>, document: Result<Json, ConfigError>) -> Option<
    ConfigView,
> {
    match document {
        Ok(j) => match decode_config(j) {
            Some(c) => Some(c),
            None => before,
        },
        Err(_) => before,
    }
}

/// The in-memory copy of the last configuration loaded, empty until the first
/// successful load.
pub struct ConfigState {
    loaded: Option<Config>,
}

impl View for ConfigState {
    type V = Option<ConfigView>;

    closed spec fn view(&self) -> Option<ConfigView> {
        match self.loaded {
            Some(c) => Some(c@),
            None => None,
        }
    }
}

impl ConfigState {
    /// A loaded configuration is well formed.
    pub closed spec fn wf(&self) -> bool {
        match self.loaded {
            Some(c) => c.wf(),
            None => true,
        }
    }

    /// The empty state: nothing loaded yet.
    pub fn new() -> (r: ConfigState)
        ensures
            r.wf(),
            r@ is None,
    {
        ConfigState { loaded: None }
    }

    /// Installs the configuration that `document` describes, replacing any
    /// loaded before. `document` is the file's content as JSON, or the error
    /// met while reading or parsing it. On any error the state is unchanged and
    /// the error is returned: a read or parse error as given, a document
    /// without the configuration's shape as a schema error.
    pub fn load_config_into_memory(&mut self, document: Result<Json, ConfigError>) -> (r: Result<
        (),
        ConfigError,
    >)
        requires
            old(self).wf(),
        ensures
            final(self).wf(),
            final(self)@ == load_step(old(self)@, document),
            match document {
                Ok(j) => match decode_config(j) {
                    Some(_) => r is Ok,
                    None => r matches Err(ConfigError::Schema(_)),
                },
                Err(e) => r == Err::<(), ConfigError>(e),
            },
    {
        match document {
            Ok(j) => {
                let c = config_from_json(&j)?;
                self.loaded = Some(c);
                Ok(())
            },
            Err(e) => Err(e),
        }
    }

    /// A deep copy of the loaded configuration, or the no-configuration-loaded
    /// error when nothing has been loaded.
    pub fn get_loaded_config(&self) -> (r: Result<Config, ConfigError>)
        requires
            self.wf(),
        ensures
            match self@ {
                Some(c) => r matches Ok(x) && x.wf() && x@ == c,
                None => r matches Err(ConfigError::NotLoaded),
            },
    {
        match &self.loaded {
            Some(c) => Ok(c.copy()),
            None => Err(ConfigError::NotLoaded),
        }
    }
}

/// Create then load: loading the document that a fresh configuration file
/// holds leaves the default configuration loaded, whatever was loaded before.
pub proof fn lemma_create_then_load(before: Option<ConfigView>, document: Json)
    requires
        is_default_document(document),
    ensures
        load_step(before, Ok(document)) == Some(default_config_view()),
{
    let c = choose|c: Config| c.wf() && c@ == default_config_view() && #[trigger] encodes_config(document, c);
    lemma_round_trip(c, document);
}

/// Loads overwrite: after two successful loads only the second document's
/// configuration is loaded, nothing of the first.
pub proof fn lemma_load_overwrites(
    before: Option<ConfigView>,
    first: Json,
    second: Json,
)
    requires
        decode_config(second) is Some,
    ensures
        load_step(load_step(before, Ok(first)), Ok(second)) == decode_config(second),
{
}

/// A failed load keeps the state: a read or parse error, or a document without
/// the configuration's shape, leaves the loaded configuration as it was.
pub proof fn lemma_failed_load_keeps_state(
    before: Option<ConfigView>,
    document: Result<Json, ConfigError>,
)
    requires
        document is Err || decode_config(document->Ok_0) is None,
    ensures
        load_step(before, document) == before,
{
}

} // verus!
