//! Loading of the configuration from properties files and the environment.

use vstd::prelude::*;
use vstd::string::*;

use crate::config::properties::properties;
use crate::config::properties::ConfigLoadError;
use crate::config::properties::PropertiesMap;
use crate::config::settings::login_name;
use crate::config::settings::GoosefsConfig;
use crate::config::values::TextMap;

verus! {

impl GoosefsConfig {
    /// `self` is the built-in configuration for the environment `env`.
    pub open spec fn is_default_in(self, env: Map<Seq<char>, Seq<char>>) -> bool {
        &&& self.master_addr@ == "127.0.0.1:9200"@
        &&& self.master_addrs@.len() == 0
        &&& self.builtin(login_name(env))
    }

    /// `self` is what a properties file with this content gives.
    pub open spec fn is_loaded_from(self, content: Seq<char>, env: Map<Seq<char>, Seq<char>>) -> bool {
        exists|base: GoosefsConfig|
            base.is_default_in(env) && #[trigger] base.overlaid_by_properties(
                properties(content),
                self,
            )
    }

    /// The configuration that the text of a properties file gives, for the user that
    /// the environment names.
    pub fn from_properties_str(content: &str, env: &TextMap) -> (r: Self)
        ensures
            r.is_loaded_from(content@, env@),
    {
        let base = GoosefsConfig::default(env);
        PropertiesMap::parse(content).into_goosefs_config(base)
    }

    /// The configuration of the properties file at `path`, of which `read` is
    /// the content or the reason why it could not be read.
    pub fn from_properties(
        path: &str,
        read: Result<String, String>,
        env: &TextMap,
    ) -> (r: Result<Self, ConfigLoadError>)
        ensures
            match (read, r) {
                (Ok(content), Ok(c)) => c.is_loaded_from(content@, env@),
                (Err(source), Err(ConfigLoadError::IoError { path: p, source: s })) => p@ == path@
                    && s == source,
                _ => false,
            },
    {
        match read {
            Ok(content) => {
                let base = GoosefsConfig::default(env);
                let c = PropertiesMap::parse(content.as_str()).into_goosefs_config(base);
                Ok(c)
            },
            Err(source) => Err(ConfigLoadError::IoError { path: path.to_owned(), source }),
        }
    }

    /// `self` is what `from_properties_auto` gives for the file `found`.
    pub open spec fn is_auto(
        self,
        found: Option<Seq<char>>,
        env: Map<Seq<char>, Seq<char>>,
    ) -> bool {
        exists|base: GoosefsConfig|
            (match found {
                Some(content) => base.is_loaded_from(content, env),
                None => base.is_default_in(env),
            }) && #[trigger] base.overlaid_by_env(env, self)
    }

    /// The configuration in order of rank: the environment, then the file that
    /// was found, then the built-in values. `found` is the path of the file
    /// with its content or the reason why it could not be read.
    pub fn from_properties_auto(
        found: Option<(String, Result<String, String>)>,
        env: &TextMap,
    ) -> (r: Result<Self, ConfigLoadError>)
        ensures
            match found {
                Some((path, Err(source))) => r matches Err(
                    ConfigLoadError::IoError { path: p, source: s },
                ) && p@ == path@ && s == source,
                Some((_, Ok(content))) => r matches Ok(c) && c.is_auto(Some(content@), env@),
                None => r matches Ok(c) && c.is_auto(None, env@),
            },
    {
        let base = match found {
            Some((path, read)) => match GoosefsConfig::from_properties(path.as_str(), read, env) {
                Ok(c) => c,
                Err(e) => return Err(e),
            },
            None => GoosefsConfig::default(env),
        };
        Ok(base.apply_env(env))
    }

    /// The built-in configuration with the settings of the environment on top.
    pub fn from_env(env: &TextMap) -> (r: Self)
        ensures
            r.is_auto(None, env@),
    {
        let base = GoosefsConfig::default(env);
        base.apply_env(env)
    }
}

} // verus!
