//! The `.fido` configuration directory: file names, stored records, and the
//! server URL to use.
use vstd::prelude::*;
use crate::numfmt::{decimal, u128_to_string};
use crate::session::{join_path, join_path_exec};
use crate::text::{chars_of, concat, has_prefix, has_suffix, owned, str_eq, string_from_chars};

verus! {

/// Session data stored locally.
#[derive(Debug)]
pub struct SessionData {
    pub username: String,
    pub session_token: String,
    pub user_id: String,
}

/// Feed filter preferences stored locally.
#[derive(Debug)]
pub struct UserPreferences {
    /// "all", "hashtag", "user" or "multi".
    pub filter_type: String,
    pub filter_hashtag: Option<String>,
    pub filter_user: Option<String>,
    pub filter_hashtags: Vec<String>,
    pub filter_users: Vec<String>,
}

/// Server configuration stored locally.
#[derive(Debug)]
pub struct ServerConfig {
    pub server_url: String,
    /// When it was saved, in seconds since the epoch.
    pub last_updated: i64,
}

/// Milliseconds since the Unix epoch on the system clock, when the clock
/// reads after the epoch (`SystemTime::now().duration_since(UNIX_EPOCH)`).
/// Nothing is promised of the value: it depends on the clock.
#[verifier::external_body]
fn now_millis() -> (r: Option<u128>) {
    std::time::SystemTime::now().duration_since(std::time::UNIX_EPOCH).ok().map(|d| d.as_millis())
}

pub open spec fn prefixed_json(prefix: Seq<char>, id: Seq<char>) -> Seq<char> {
    prefix + id + ".json"@
}

fn prefixed_json_exec(prefix: &str, id: &str) -> (r: String)
    ensures
        r@ == prefixed_json(prefix@, id@),
{
    let a = chars_of(prefix);
    let b = chars_of(id);
    let c = chars_of(".json");
    let ab = concat(a.as_slice(), b.as_slice());
    let abc = concat(ab.as_slice(), c.as_slice());
    string_from_chars(abc.as_slice())
}

/// Manager of the `.fido` directory.
#[derive(Debug)]
pub struct ConfigManager {
    pub config_dir: String,
}

impl ConfigManager {
    /// A manager for the directory `config_dir`.
    pub fn new(config_dir: String) -> (r: Self)
        ensures
            r.config_dir == config_dir,
    {
        ConfigManager { config_dir }
    }

    /// A fresh instance id: the current time in milliseconds, in decimal
    /// ("0" when the clock reads before the epoch).
    pub fn generate_instance_id() -> (r: String)
        ensures
            r@.len() > 0,
            exists|ms: nat| r@ == decimal(ms),
    {
        let ms = match now_millis() {
            Some(ms) => ms,
            None => 0,
        };
        let r = u128_to_string(ms);
        proof {
            crate::config::lemma_decimal_nonempty(ms as nat);
        }
        r
    }

    /// Path of the session file of instance `instance_id`.
    pub fn get_session_file(&self, instance_id: &str) -> (r: String)
        ensures
            r@ == join_path(self.config_dir@, prefixed_json("session_"@, instance_id@)),
    {
        let name = prefixed_json_exec("session_", instance_id);
        join_path_exec(self.config_dir.as_str(), name.as_str())
    }

    /// Path of the preferences file of user `user_id`.
    pub fn get_preferences_file(&self, user_id: &str) -> (r: String)
        ensures
            r@ == join_path(self.config_dir@, prefixed_json("prefs_"@, user_id@)),
    {
        let name = prefixed_json_exec("prefs_", user_id);
        join_path_exec(self.config_dir.as_str(), name.as_str())
    }

    /// Path of the server configuration file.
    pub fn get_server_config_file(&self) -> (r: String)
        ensures
            r@ == join_path(self.config_dir@, "server_config.json"@),
    {
        join_path_exec(self.config_dir.as_str(), "server_config.json")
    }

    /// Whether startup cleanup removes `file_name`: an instance session file
    /// (`session_*.json`) last modified more than thirty days before `now`
    /// (both in seconds since the epoch).
    pub fn is_expired_instance_session(file_name: &str, modified: u64, now: u64) -> (r: bool)
        ensures
            r == (has_prefix(file_name@, "session_"@) && has_suffix(file_name@, ".json"@)
                && modified + 30 * 24 * 60 * 60 < now),
    {
        let f = chars_of(file_name);
        let p = chars_of("session_");
        let s = chars_of(".json");
        crate::text::starts_with(f.as_slice(), p.as_slice()) && crate::text::ends_with(
            f.as_slice(),
            s.as_slice(),
        ) && now > 2592000 && modified < now - 2592000
    }
}

pub proof fn lemma_decimal_nonempty(n: nat)
    ensures
        decimal(n).len() > 0,
    decreases n,
{
    if n >= 10 {
        lemma_decimal_nonempty(n / 10);
    }
}

/// How the client runs: in a terminal, or inside the web terminal.
#[derive(Debug, Clone, Copy, PartialEq, Eq, Structural)]
pub enum AppMode {
    /// Native terminal mode - uses file-based storage.
    Native,
    /// Web terminal mode - uses browser-based storage.
    Web,
}

/// The detected mode.
#[derive(Debug, Clone, Copy)]
pub struct ModeDetector {
    pub mode: AppMode,
}

impl ModeDetector {
    /// Web mode exactly when the `FIDO_WEB_MODE` variable is set, whatever
    /// its value.
    pub fn new(web_mode_var_set: bool) -> (r: Self)
        ensures
            r.mode == (if web_mode_var_set {
                AppMode::Web
            } else {
                AppMode::Native
            }),
    {
        ModeDetector {
            mode: if web_mode_var_set {
                AppMode::Web
            } else {
                AppMode::Native
            },
        }
    }

    /// The mode for the value of `FIDO_WEB_MODE` (`None` when it is not
    /// set): web mode for any value, the empty one and "false" included.
    pub fn from_env_value(value: Option<&str>) -> (r: Self)
        ensures
            r.mode == (if value is Some {
                AppMode::Web
            } else {
                AppMode::Native
            }),
    {
        ModeDetector::new(value.is_some())
    }

    /// The detected mode.
    pub fn mode(&self) -> (r: &AppMode)
        ensures
            *r == self.mode,
    {
        &self.mode
    }

    /// Running in the web terminal.
    pub fn is_web_mode(&self) -> (r: bool)
        ensures
            r == (self.mode == AppMode::Web),
    {
        match self.mode {
            AppMode::Web => true,
            AppMode::Native => false,
        }
    }

    /// Running in a native terminal.
    pub fn is_native_mode(&self) -> (r: bool)
        ensures
            r == (self.mode == AppMode::Native),
    {
        match self.mode {
            AppMode::Web => false,
            AppMode::Native => true,
        }
    }
}

pub open spec fn production_url() -> Seq<char> {
    "https://fido-social.fly.dev"@
}

pub open spec fn local_url() -> Seq<char> {
    "http://127.0.0.1:3000"@
}

/// Chooses the server URL.
#[derive(Debug)]
pub struct ServerConfigManager {
    /// The `FIDO_WEB_MODE` variable is set.
    pub web_mode: bool,
    /// The URL saved in the server configuration file, if one is saved.
    pub saved_server_url: Option<String>,
}

impl ServerConfigManager {
    /// A manager given the mode and the saved configuration.
    pub fn new(web_mode: bool, saved_server_url: Option<String>) -> (r: Self)
        ensures
            r.web_mode == web_mode,
            r.saved_server_url == saved_server_url,
    {
        ServerConfigManager { web_mode, saved_server_url }
    }

    pub open spec fn spec_default_url(&self) -> Seq<char> {
        if self.web_mode {
            local_url()
        } else {
            production_url()
        }
    }

    /// The local API server in web mode, production otherwise.
    pub fn get_default_server_url(&self) -> (r: String)
        ensures
            r@ == self.spec_default_url(),
    {
        if self.web_mode {
            owned("http://127.0.0.1:3000")
        } else {
            owned("https://fido-social.fly.dev")
        }
    }

    /// The URL to use, by priority: the command line, the `FIDO_SERVER_URL`
    /// variable, the saved configuration, the default for the mode.
    pub fn determine_server_url(&self, cli_override: Option<String>, env_url: Option<String>) -> (r:
        String)
        ensures
            r@ == (match cli_override {
                Some(u) => u@,
                None => match env_url {
                    Some(u) => u@,
                    None => match self.saved_server_url {
                        Some(u) => u@,
                        None => self.spec_default_url(),
                    },
                },
            }),
    {
        if let Some(url) = cli_override {
            return url;
        }
        if let Some(url) = env_url {
            return url;
        }
        self.get_configured_server_url()
    }

    /// The saved URL, or the default for the mode.
    pub fn get_configured_server_url(&self) -> (r: String)
        ensures
            r@ == (match self.saved_server_url {
                Some(u) => u@,
                None => self.spec_default_url(),
            }),
    {
        match &self.saved_server_url {
            Some(u) => owned(u.as_str()),
            None => self.get_default_server_url(),
        }
    }

    /// Whether a URL other than the default is configured.
    pub fn has_custom_server_url(&self, env_url_set: bool) -> (r: bool)
        ensures
            r == (env_url_set || match self.saved_server_url {
                Some(u) => u@ != self.spec_default_url(),
                None => false,
            }),
    {
        if env_url_set {
            return true;
        }
        match &self.saved_server_url {
            Some(u) => {
                let d = self.get_default_server_url();
                !str_eq(u.as_str(), d.as_str())
            },
            None => false,
        }
    }

    /// A display name for the server at `current_url`.
    pub fn get_server_description(&self, current_url: &str) -> (r: String)
        ensures
            r@ == (if current_url@ == self.spec_default_url() {
                if crate::text::contains(current_url@, "fido-social.fly.dev"@) {
                    "Production Server (default)"@
                } else {
                    "Local Development Server (default)"@
                }
            } else if crate::text::contains(current_url@, "localhost"@) || crate::text::contains(
                current_url@,
                "127.0.0.1"@,
            ) {
                "Local Development Server (custom)"@
            } else if crate::text::contains(current_url@, "fido-social.fly.dev"@) {
                "Production Server (custom)"@
            } else {
                "Custom Server"@
            }),
    {
        let d = self.get_default_server_url();
        let u = chars_of(current_url);
        let fly = chars_of("fido-social.fly.dev");
        let lh = chars_of("localhost");
        let lo = chars_of("127.0.0.1");
        if str_eq(current_url, d.as_str()) {
            if crate::text::contains_exec(u.as_slice(), fly.as_slice()) {
                owned("Production Server (default)")
            } else {
                owned("Local Development Server (default)")
            }
        } else if crate::text::contains_exec(u.as_slice(), lh.as_slice())
            || crate::text::contains_exec(u.as_slice(), lo.as_slice()) {
            owned("Local Development Server (custom)")
        } else if crate::text::contains_exec(u.as_slice(), fly.as_slice()) {
            owned("Production Server (custom)")
        } else {
            owned("Custom Server")
        }
    }
}

} // verus!
