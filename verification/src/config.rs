//! Settings: defaults, the values a configuration file may hold, and how
//! command-line arguments override them.
use vstd::prelude::*;

verus! {

broadcast use vstd::string::group_string_axioms;

/// Client id of the Microsoft Graph CLI public client.
pub open spec fn default_client_id_spec() -> Seq<char> {
    "14d82eec-204b-4a2f-88e6-54b83fb904e6"@
}

/// The tenant used unless another is configured.
pub open spec fn default_tenant_id_spec() -> Seq<char> {
    "common"@
}

/// The log file used unless another is configured.
pub open spec fn default_log_file_spec() -> Seq<char> {
    "teams-tui.log"@
}

/// Client id of the Microsoft Graph CLI public client.
pub fn default_public_client_id() -> (r: String)
    ensures
        r@ == default_client_id_spec(),
{
    String::from_str("14d82eec-204b-4a2f-88e6-54b83fb904e6")
}

/// The tenant used unless another is configured.
pub fn default_tenant_id() -> (r: String)
    ensures
        r@ == default_tenant_id_spec(),
{
    String::from_str("common")
}

/// Command-line arguments.
#[derive(Debug)]
pub struct CliArgs {
    /// Azure Entra ID client id.
    pub client_id: Option<String>,
    /// Azure Entra ID tenant id.
    pub tenant_id: Option<String>,
    /// Force a new sign-in.
    pub login: bool,
    /// Path of the configuration file.
    pub config: Option<String>,
    /// Enable debug logging.
    pub debug: bool,
    /// Path of the log file.
    pub log_file: Option<String>,
}

/// The effective settings.
#[derive(Debug)]
pub struct AppConfig {
    pub client_id: String,
    pub tenant_id: String,
    /// Seconds between polls of the user's own presence.
    pub poll_interval_secs: u64,
    /// Seconds between polls of an open chat.
    pub active_chat_poll_interval: u64,
    /// Seconds between polls of an open channel.
    pub active_channel_poll_interval: u64,
    pub debug: bool,
    pub log_file: String,
}

/// Seconds between polls when the configuration file gives none.
pub fn default_poll_interval() -> (r: u64)
    ensures
        r == 5,
{
    5
}

/// Seconds between polls of an open chat when the configuration file gives none.
pub fn default_chat_poll_interval() -> (r: u64)
    ensures
        r == 5,
{
    5
}

/// Seconds between polls of an open channel when the configuration file gives none.
pub fn default_channel_poll_interval() -> (r: u64)
    ensures
        r == 15,
{
    15
}

/// Log file used when the configuration file gives none.
pub fn default_log_file() -> (r: String)
    ensures
        r@ == default_log_file_spec(),
{
    String::from_str("teams-tui.log")
}

/// The configuration has the default values.
pub open spec fn is_default_config(c: AppConfig) -> bool {
    &&& c.client_id@ == default_client_id_spec()
    &&& c.tenant_id@ == default_tenant_id_spec()
    &&& c.poll_interval_secs == 5
    &&& c.active_chat_poll_interval == 5
    &&& c.active_channel_poll_interval == 15
    &&& !c.debug
    &&& c.log_file@ == default_log_file_spec()
}

impl Default for AppConfig {
    fn default() -> (r: Self)
        ensures
            is_default_config(r),
    {
        AppConfig {
            client_id: default_public_client_id(),
            tenant_id: default_tenant_id(),
            poll_interval_secs: 5,
            active_chat_poll_interval: 5,
            active_channel_poll_interval: 15,
            debug: false,
            log_file: default_log_file(),
        }
    }
}

/// `after` is `base` with every setting the arguments give put in its place.
pub open spec fn merged(base: AppConfig, args: CliArgs, after: AppConfig) -> bool {
    &&& after.client_id@ == match args.client_id {
        Some(c) => c@,
        None => base.client_id@,
    }
    &&& after.tenant_id@ == match args.tenant_id {
        Some(t) => t@,
        None => base.tenant_id@,
    }
    &&& after.log_file@ == match args.log_file {
        Some(l) => l@,
        None => base.log_file@,
    }
    &&& after.debug == (base.debug || args.debug)
    &&& after.poll_interval_secs == base.poll_interval_secs
    &&& after.active_chat_poll_interval == base.active_chat_poll_interval
    &&& after.active_channel_poll_interval == base.active_channel_poll_interval
}

/// The settings should be written back: the arguments gave a client id,
/// tenant id or log file (a debug flag alone does not count).
pub open spec fn merge_modifies(args: CliArgs) -> bool {
    args.client_id is Some || args.tenant_id is Some || args.log_file is Some
}

impl AppConfig {
    /// The effective settings: those read from the configuration file (or the
    /// defaults when there is none), overridden by the command line; and
    /// whether they differ from the file so that it should be rewritten.
    pub fn merge_cli_args(file_config: Option<AppConfig>, args: &CliArgs) -> (r: (AppConfig, bool))
        ensures
            file_config is Some ==> merged(file_config->0, *args, r.0),
            file_config is None ==> {
                &&& r.0.client_id@ == match args.client_id {
                    Some(c) => c@,
                    None => default_client_id_spec(),
                }
                &&& r.0.tenant_id@ == match args.tenant_id {
                    Some(t) => t@,
                    None => default_tenant_id_spec(),
                }
                &&& r.0.log_file@ == match args.log_file {
                    Some(l) => l@,
                    None => default_log_file_spec(),
                }
                &&& r.0.debug == args.debug
                &&& r.0.poll_interval_secs == 5
                &&& r.0.active_chat_poll_interval == 5
                &&& r.0.active_channel_poll_interval == 15
            },
            r.1 == merge_modifies(*args),
    {
        let mut config = match file_config {
            Some(c) => c,
            None => AppConfig::default(),
        };
        let ghost base = config;
        let mut modified = false;
        if let Some(cid) = &args.client_id {
            config.client_id = cid.clone();
            modified = true;
        }
        if let Some(tid) = &args.tenant_id {
            config.tenant_id = tid.clone();
            modified = true;
        }
        if args.debug {
            config.debug = true;
        }
        if let Some(lf) = &args.log_file {
            config.log_file = lf.clone();
            modified = true;
        }
        proof {
            assert(merged(base, *args, config));
        }
        (config, modified)
    }
}

} // verus!
