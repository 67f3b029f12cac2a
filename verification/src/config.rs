//! Credentials and endpoint: where they come from and what the client is
//! given.

use crate::error::{DdLogsError, ErrorModel};
use crate::text::{text_of, trim, trimmed};
use vstd::prelude::*;

verus! {

/// The credentials and the site of the search service. Any of them may be
/// missing until a search is about to start.
#[derive(Debug)]
pub struct Config {
    pub api_key: Option<String>,
    pub app_key: Option<String>,
    pub site: Option<String>,
}

/// The contents of a [`Config`].
pub struct ConfigModel {
    pub api_key: Option<Seq<char>>,
    pub app_key: Option<Seq<char>>,
    pub site: Option<Seq<char>>,
}

impl View for Config {
    type V = ConfigModel;

    open spec fn view(&self) -> ConfigModel {
        ConfigModel {
            api_key: text_of(self.api_key),
            app_key: text_of(self.app_key),
            site: text_of(self.site),
        }
    }
}

/// The contents of a stored configuration that may be absent.
pub open spec fn stored_model(stored: Option<Config>) -> Option<ConfigModel> {
    match stored {
        Some(c) => Some(c@),
        None => None,
    }
}

/// A setting from the environment wins over the stored one.
pub open spec fn overridden(stored: Option<Seq<char>>, env: Option<Seq<char>>) -> Option<
    Seq<char>,
> {
    match env {
        Some(v) => Some(v),
        None => stored,
    }
}

/// The site that is used when the user names none.
pub open spec fn default_site() -> Seq<char> {
    "datadoghq.com"@
}

/// The name under which the client holds the API key.
pub open spec fn api_key_name() -> Seq<char> {
    "apiKeyAuth"@
}

/// The name under which the client holds the application key.
pub open spec fn app_key_name() -> Seq<char> {
    "appKeyAuth"@
}

/// The name of the server variable that selects the site.
pub open spec fn site_variable_name() -> Seq<char> {
    "site"@
}

impl ConfigModel {
    /// The configuration with nothing set.
    pub open spec fn empty() -> ConfigModel {
        ConfigModel { api_key: None, app_key: None, site: None }
    }

    /// The stored configuration, or the empty one where none could be read,
    /// with each setting replaced by the one from the environment where the
    /// environment has it.
    pub open spec fn resolved(
        stored: Option<ConfigModel>,
        api_key: Option<Seq<char>>,
        app_key: Option<Seq<char>>,
        site: Option<Seq<char>>,
    ) -> ConfigModel {
        let base = match stored {
            Some(c) => c,
            None => ConfigModel::empty(),
        };
        ConfigModel {
            api_key: overridden(base.api_key, api_key),
            app_key: overridden(base.app_key, app_key),
            site: overridden(base.site, site),
        }
    }

    /// The configuration that three answers make, once surrounding
    /// whitespace is off them: both keys as given, and the site, or the
    /// default site for an empty answer.
    pub open spec fn answered(api_key: Seq<char>, app_key: Seq<char>, site: Seq<char>) -> ConfigModel {
        ConfigModel {
            api_key: Some(api_key),
            app_key: Some(app_key),
            site: Some(
                if site.len() == 0 {
                    default_site()
                } else {
                    site
                },
            ),
        }
    }

    /// Both keys are present.
    pub open spec fn has_credentials(self) -> bool {
        self.api_key is Some && self.app_key is Some
    }

    /// The keys handed to the client: the API key, then the application key,
    /// each only if present, each without a prefix.
    pub open spec fn auth_keys(self) -> Seq<AuthKeyModel> {
        auth_entry(api_key_name(), self.api_key) + auth_entry(app_key_name(), self.app_key)
    }

    /// The server variables handed to the client: the site, if present.
    pub open spec fn server_variables(self) -> Seq<ServerVariableModel> {
        match self.site {
            Some(site) => seq![ServerVariableModel { name: site_variable_name(), value: site }],
            None => seq![],
        }
    }
}

/// The entry for one key that may be absent.
pub open spec fn auth_entry(name: Seq<char>, key: Option<Seq<char>>) -> Seq<AuthKeyModel> {
    match key {
        Some(key) => seq![AuthKeyModel { name, key, prefix: Seq::empty() }],
        None => seq![],
    }
}

/// A key for the client, filed under the name of an authentication scheme.
#[derive(Debug)]
pub struct AuthKey {
    pub name: String,
    pub key: String,
    pub prefix: String,
}

/// The contents of an [`AuthKey`].
pub struct AuthKeyModel {
    pub name: Seq<char>,
    pub key: Seq<char>,
    pub prefix: Seq<char>,
}

impl View for AuthKey {
    type V = AuthKeyModel;

    open spec fn view(&self) -> AuthKeyModel {
        AuthKeyModel { name: self.name@, key: self.key@, prefix: self.prefix@ }
    }
}

/// A variable of the client's server address.
#[derive(Debug)]
pub struct ServerVariable {
    pub name: String,
    pub value: String,
}

/// The contents of a [`ServerVariable`].
pub struct ServerVariableModel {
    pub name: Seq<char>,
    pub value: Seq<char>,
}

impl View for ServerVariable {
    type V = ServerVariableModel;

    open spec fn view(&self) -> ServerVariableModel {
        ServerVariableModel { name: self.name@, value: self.value@ }
    }
}

/// What the client of the search service is set up with.
#[derive(Debug)]
pub struct ClientSettings {
    pub auth_keys: Vec<AuthKey>,
    pub server_variables: Vec<ServerVariable>,
}

impl ClientSettings {
    /// The contents of the keys, in order.
    pub open spec fn auth_key_models(self) -> Seq<AuthKeyModel> {
        Seq::new(self.auth_keys@.len(), |i: int| self.auth_keys@[i]@)
    }

    /// The contents of the server variables, in order.
    pub open spec fn server_variable_models(self) -> Seq<ServerVariableModel> {
        Seq::new(self.server_variables@.len(), |i: int| self.server_variables@[i]@)
    }
}

/// The setting from the environment if there is one, else the stored one.
fn override_with(stored: Option<String>, env: Option<String>) -> (setting: Option<String>)
    ensures
        text_of(setting) == overridden(text_of(stored), text_of(env)),
{
    match env {
        Some(v) => Some(v),
        None => stored,
    }
}

impl Default for Config {
    fn default() -> (c: Config)
        ensures
            c@ == ConfigModel::empty(),
    {
        Config { api_key: None, app_key: None, site: None }
    }
}

impl Config {
    /// Settles the configuration for a run. `stored` is what the
    /// configuration file held, or `None` where it is missing or unreadable;
    /// the other three are the settings found in the environment, which win
    /// over the stored ones.
    pub fn load(
        stored: Option<Config>,
        api_key: Option<String>,
        app_key: Option<String>,
        site: Option<String>,
    ) -> (c: Config)
        ensures
            c@ == ConfigModel::resolved(
                stored_model(stored),
                text_of(api_key),
                text_of(app_key),
                text_of(site),
            ),
    {
        let base = match stored {
            Some(c) => c,
            None => Config { api_key: None, app_key: None, site: None },
        };
        Config {
            api_key: override_with(base.api_key, api_key),
            app_key: override_with(base.app_key, app_key),
            site: override_with(base.site, site),
        }
    }

    /// The configuration that three answers make which carry no surrounding
    /// whitespace: both keys as given, and the site, or `datadoghq.com` for
    /// an empty answer.
    pub fn from_trimmed_answers(api_key: &str, app_key: &str, site: &str) -> (c: Config)
        ensures
            c@ == ConfigModel::answered(api_key@, app_key@, site@),
    {
        let site = if site.is_empty() {
            String::from_str("datadoghq.com")
        } else {
            String::from_str(site)
        };
        Config {
            api_key: Some(String::from_str(api_key)),
            app_key: Some(String::from_str(app_key)),
            site: Some(site),
        }
    }

    /// The configuration that three answers make as they were typed: each is
    /// trimmed first, then taken as `from_trimmed_answers` takes it.
    pub fn from_answers(api_key: &str, app_key: &str, site: &str) -> (c: Config)
        ensures
            c@ == ConfigModel::answered(trimmed(api_key@), trimmed(app_key@), trimmed(site@)),
    {
        Config::from_trimmed_answers(trim(api_key), trim(app_key), trim(site))
    }

    /// Both keys are present.
    pub fn has_credentials(&self) -> (present: bool)
        ensures
            present == self@.has_credentials(),
    {
        self.api_key.is_some() && self.app_key.is_some()
    }

    /// Fails with `MissingCredentials` exactly when a key is missing.
    pub fn check_credentials(&self) -> (checked: Result<(), DdLogsError>)
        ensures
            self@.has_credentials() ==> checked is Ok,
            !self@.has_credentials() ==> (checked matches Err(e) && e@
                == ErrorModel::MissingCredentials),
    {
        if self.has_credentials() {
            Ok(())
        } else {
            Err(DdLogsError::MissingCredentials)
        }
    }

    /// What the client is set up with: each key that is present under the
    /// name of its scheme, and the site as a server variable.
    pub fn client_settings(&self) -> (settings: ClientSettings)
        ensures
            settings.auth_key_models() == self@.auth_keys(),
            settings.server_variable_models() == self@.server_variables(),
    {
        let mut auth_keys: Vec<AuthKey> = Vec::new();
        match &self.api_key {
            Some(key) => {
                auth_keys.push(
                    AuthKey {
                        name: String::from_str("apiKeyAuth"),
                        key: key.clone(),
                        prefix: String::new(),
                    },
                );
            },
            None => {},
        }
        match &self.app_key {
            Some(key) => {
                auth_keys.push(
                    AuthKey {
                        name: String::from_str("appKeyAuth"),
                        key: key.clone(),
                        prefix: String::new(),
                    },
                );
            },
            None => {},
        }
        let mut server_variables: Vec<ServerVariable> = Vec::new();
        match &self.site {
            Some(site) => {
                server_variables.push(
                    ServerVariable { name: String::from_str("site"), value: site.clone() },
                );
            },
            None => {},
        }
        let settings = ClientSettings { auth_keys, server_variables };
        assert(settings.auth_key_models() =~= self@.auth_keys());
        assert(settings.server_variable_models() =~= self@.server_variables());
        settings
    }
}

} // verus!
