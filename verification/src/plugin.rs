//! Configuration and start-up decisions of the core client and game server
//! plugins.

use crate::networking_sockets::{contains_nul, text_has_nul};
use vstd::prelude::*;

verus! {

/// How the core plugin creates or locates the Steamworks client.
#[derive(Clone, Copy, Debug, PartialEq, Eq, Hash, Structural)]
pub enum SteamworksInitMode {
    /// Initialize from the environment (`steam_appid.txt` or Steam launch).
    Automatic,
    /// Initialize with a specific app id.
    AppId(u32),
    /// Do not initialize; another layer inserts the client.
    Manual,
}

impl SteamworksInitMode {
    /// The app id this mode initializes with, if it names one.
    pub fn raw_app_id(&self) -> (app_id: Option<u32>)
        ensures
            app_id == match *self {
                SteamworksInitMode::AppId(id) => Some(id),
                _ => None,
            },
    {
        match self {
            SteamworksInitMode::AppId(id) => Some(*id),
            _ => None,
        }
    }
}

/// How a core plugin reacts when Steamworks cannot be initialized.
#[derive(Clone, Copy, Debug, PartialEq, Eq, Hash, Structural)]
pub enum SteamworksFailurePolicy {
    /// Panic with the initialization error.
    Panic,
    /// Record the error as a resource and keep the app running.
    LogAndContinue,
}

/// Why Steam refused to initialize.
#[derive(Clone, Debug, PartialEq, Eq)]
pub enum SteamworksInitError {
    /// Some other failure.
    FailedGeneric(String),
    /// Steam is probably not running.
    NoSteamClient(String),
    /// The Steam client appears to be out of date.
    VersionMismatch(String),
}

/// Why the Steamworks client is not available.
#[derive(Clone, Debug, PartialEq, Eq)]
pub enum SteamworksUnavailable {
    /// Manual initialization was selected and no client was provided.
    ManualClientMissing,
    /// Steam refused to initialize.
    InitFailed {
        /// Initialization mode that was attempted.
        mode: SteamworksInitMode,
        /// Error reported by Steam.
        error: SteamworksInitError,
    },
}

impl SteamworksUnavailable {
    /// An initialization failure in `mode`.
    pub fn init_failed(mode: SteamworksInitMode, error: SteamworksInitError) -> (unavailable: Self)
        ensures
            unavailable == (SteamworksUnavailable::InitFailed { mode, error }),
    {
        SteamworksUnavailable::InitFailed { mode, error }
    }

    /// Whether manual initialization was selected without a client.
    pub fn is_manual_client_missing(&self) -> (missing: bool)
        ensures
            missing == self is ManualClientMissing,
    {
        match self {
            SteamworksUnavailable::ManualClientMissing => true,
            _ => false,
        }
    }

    /// Whether Steam refused to initialize.
    pub fn is_init_failed(&self) -> (failed: bool)
        ensures
            failed == self is InitFailed,
    {
        match self {
            SteamworksUnavailable::InitFailed { .. } => true,
            _ => false,
        }
    }

    /// The initialization mode that failed, if Steam refused.
    pub fn init_mode(&self) -> (mode: Option<SteamworksInitMode>)
        ensures
            mode == match *self {
                SteamworksUnavailable::InitFailed { mode, .. } => Some(mode),
                _ => None,
            },
    {
        match self {
            SteamworksUnavailable::InitFailed { mode, .. } => Some(*mode),
            _ => None,
        }
    }

    /// The app id of the failed initialization, if it named one.
    pub fn app_id(&self) -> (app_id: Option<u32>)
        ensures
            app_id == match *self {
                SteamworksUnavailable::InitFailed { mode: SteamworksInitMode::AppId(id), .. } => Some(id),
                _ => None,
            },
    {
        match self {
            SteamworksUnavailable::InitFailed { mode, .. } => mode.raw_app_id(),
            _ => None,
        }
    }

    /// The raw app id of the failed initialization, if it named one.
    pub fn raw_app_id(&self) -> (app_id: Option<u32>)
        ensures
            app_id == match *self {
                SteamworksUnavailable::InitFailed { mode: SteamworksInitMode::AppId(id), .. } => Some(id),
                _ => None,
            },
    {
        self.app_id()
    }

    /// The error Steam reported, if it refused.
    pub fn init_error(&self) -> (error: Option<&SteamworksInitError>)
        ensures
            match *self {
                SteamworksUnavailable::InitFailed { error: e, .. } => error == Some(&e),
                _ => error is None,
            },
    {
        match self {
            SteamworksUnavailable::InitFailed { error, .. } => Some(error),
            _ => None,
        }
    }

    /// Human-readable description of why the client is unavailable.
    pub fn message(&self) -> (text: &'static str)
        ensures
            self is ManualClientMissing ==> text@ == "manual Steamworks initialization was selected, but no SteamworksClient was provided"@,
            self is InitFailed ==> text@ == "Steamworks initialization failed"@,
    {
        proof {
            reveal_strlit("manual Steamworks initialization was selected, but no SteamworksClient was provided");
            reveal_strlit("Steamworks initialization failed");
        }
        match self {
            SteamworksUnavailable::ManualClientMissing => "manual Steamworks initialization was selected, but no SteamworksClient was provided",
            SteamworksUnavailable::InitFailed { .. } => "Steamworks initialization failed",
        }
    }
}

/// Configuration of the core Steamworks client plugin, holding the client
/// handle `C` when one was handed to it.
pub struct SteamworksPlugin<C> {
    mode: SteamworksInitMode,
    failure_policy: SteamworksFailurePolicy,
    run_callbacks: bool,
    client: Option<C>,
}

/// Abstract value of the core plugin's configuration.
pub struct SteamworksPluginView<C> {
    /// How the client is created or located.
    pub mode: SteamworksInitMode,
    /// Reaction to an initialization failure.
    pub failure_policy: SteamworksFailurePolicy,
    /// Whether Steam callbacks run automatically.
    pub run_callbacks: bool,
    /// The initialized client handed to the plugin, if any.
    pub client: Option<C>,
}

impl<C> View for SteamworksPlugin<C> {
    type V = SteamworksPluginView<C>;

    closed spec fn view(&self) -> SteamworksPluginView<C> {
        SteamworksPluginView {
            mode: self.mode,
            failure_policy: self.failure_policy,
            run_callbacks: self.run_callbacks,
            client: self.client,
        }
    }
}

/// A fresh plugin configuration for `mode`: panics on failure, runs callbacks,
/// holds no client.
pub open spec fn configured<C>(mode: SteamworksInitMode) -> SteamworksPluginView<C> {
    SteamworksPluginView {
        mode,
        failure_policy: SteamworksFailurePolicy::Panic,
        run_callbacks: true,
        client: None,
    }
}

/// The configuration of a plugin built around the initialized `client`.
pub open spec fn configured_with_client<C>(client: C) -> SteamworksPluginView<C> {
    SteamworksPluginView { client: Some(client), ..configured(SteamworksInitMode::Manual) }
}

/// The app id that initialization in `mode` passes to Steam: `None` asks
/// Steam to find it in the environment.
pub open spec fn init_app_id(mode: SteamworksInitMode) -> Option<u32> {
    match mode {
        SteamworksInitMode::AppId(id) => Some(id),
        _ => None,
    }
}

/// What the build reports after Steam answered an initialization in `mode`.
pub open spec fn client_init_outcome<C>(
    mode: SteamworksInitMode,
    started: Result<C, SteamworksInitError>,
) -> Result<C, SteamworksUnavailable> {
    match started {
        Ok(client) => Ok(client),
        Err(error) => Err(SteamworksUnavailable::InitFailed { mode, error }),
    }
}

/// Whether `plugin` is what initializing now reports after Steam answered
/// `started`: a plugin around the client, or Steam's error.
pub open spec fn plugin_init_outcome<C>(
    started: Result<C, SteamworksInitError>,
    plugin: Result<SteamworksPlugin<C>, SteamworksInitError>,
) -> bool {
    match started {
        Ok(client) => plugin matches Ok(p) && p@ == configured_with_client(client),
        Err(error) => plugin == Err::<SteamworksPlugin<C>, SteamworksInitError>(error),
    }
}

/// Maps Steam's answer to an initialization in `mode` into the build's
/// outcome: the client, or the mode together with Steam's error.
pub fn client_init_result<C>(
    mode: SteamworksInitMode,
    started: Result<C, SteamworksInitError>,
) -> (outcome: Result<C, SteamworksUnavailable>)
    ensures
        outcome == client_init_outcome(mode, started),
{
    match started {
        Ok(client) => Ok(client),
        Err(error) => Err(SteamworksUnavailable::init_failed(mode, error)),
    }
}

impl<C> Default for SteamworksPlugin<C> {
    /// Initialize from the environment.
    fn default() -> (plugin: Self)
        ensures
            plugin@ == configured::<C>(SteamworksInitMode::Automatic),
    {
        SteamworksPlugin::automatic()
    }
}

impl<C> SteamworksPlugin<C> {
    fn with_mode(mode: SteamworksInitMode) -> (plugin: Self)
        ensures
            plugin@ == configured::<C>(mode),
    {
        SteamworksPlugin {
            mode,
            failure_policy: SteamworksFailurePolicy::Panic,
            run_callbacks: true,
            client: None,
        }
    }

    /// A plugin that initializes Steamworks from the environment.
    pub fn automatic() -> (plugin: Self)
        ensures
            plugin@ == configured::<C>(SteamworksInitMode::Automatic),
    {
        SteamworksPlugin::with_mode(SteamworksInitMode::Automatic)
    }

    /// A plugin that initializes Steamworks with a specific app id.
    pub fn app_id(app_id: u32) -> (plugin: Self)
        ensures
            plugin@ == configured::<C>(SteamworksInitMode::AppId(app_id)),
    {
        SteamworksPlugin::with_mode(SteamworksInitMode::AppId(app_id))
    }

    /// A plugin that does not initialize Steamworks.
    pub fn manual() -> (plugin: Self)
        ensures
            plugin@ == configured::<C>(SteamworksInitMode::Manual),
    {
        SteamworksPlugin::with_mode(SteamworksInitMode::Manual)
    }

    /// A plugin around an already initialized client.
    pub fn from_client(client: C) -> (plugin: Self)
        ensures
            plugin@ == configured_with_client(client),
    {
        SteamworksPlugin {
            mode: SteamworksInitMode::Manual,
            failure_policy: SteamworksFailurePolicy::Panic,
            run_callbacks: true,
            client: Some(client),
        }
    }

    /// Initializes Steamworks now through `start`, from the environment
    /// (`start` gets no app id), and wraps the client.
    pub fn init<F>(start: F) -> (plugin: Result<Self, SteamworksInitError>)
        where
            F: FnOnce(Option<u32>) -> Result<C, SteamworksInitError>,
        requires
            call_requires(start, (None::<u32>,)),
        ensures
            exists|started: Result<C, SteamworksInitError>|
                call_ensures(start, (None::<u32>,), started) && plugin_init_outcome(started, plugin),
    {
        let started = start(None);
        let ghost answer = started;
        let plugin = match started {
            Ok(client) => Ok(SteamworksPlugin::from_client(client)),
            Err(error) => Err(error),
        };
        assert(call_ensures(start, (None::<u32>,), answer) && plugin_init_outcome(answer, plugin));
        plugin
    }

    /// Initializes Steamworks now through `start` with the app id `app_id`,
    /// and wraps the client.
    pub fn init_app<F>(app_id: u32, start: F) -> (plugin: Result<Self, SteamworksInitError>)
        where
            F: FnOnce(Option<u32>) -> Result<C, SteamworksInitError>,
        requires
            call_requires(start, (Some(app_id),)),
        ensures
            exists|started: Result<C, SteamworksInitError>|
                call_ensures(start, (Some(app_id),), started) && plugin_init_outcome(started, plugin),
    {
        let started = start(Some(app_id));
        let ghost answer = started;
        let plugin = match started {
            Ok(client) => Ok(SteamworksPlugin::from_client(client)),
            Err(error) => Err(error),
        };
        assert(call_ensures(start, (Some(app_id),), answer) && plugin_init_outcome(answer, plugin));
        plugin
    }

    /// Sets the initialization failure policy.
    pub fn failure_policy(self, policy: SteamworksFailurePolicy) -> (plugin: Self)
        ensures
            plugin@ == (SteamworksPluginView { failure_policy: policy, ..self@ }),
    {
        let mut plugin = self;
        plugin.failure_policy = policy;
        plugin
    }

    /// Keeps the app running when Steamworks cannot be initialized.
    pub fn log_and_continue(self) -> (plugin: Self)
        ensures
            plugin@ == (SteamworksPluginView {
                failure_policy: SteamworksFailurePolicy::LogAndContinue,
                ..self@
            }),
    {
        self.failure_policy(SteamworksFailurePolicy::LogAndContinue)
    }

    /// Sets whether Steam callbacks run automatically.
    pub fn run_callbacks(self, run_callbacks: bool) -> (plugin: Self)
        ensures
            plugin@ == (SteamworksPluginView { run_callbacks, ..self@ }),
    {
        let mut plugin = self;
        plugin.run_callbacks = run_callbacks;
        plugin
    }

    /// How this plugin creates or locates the client.
    pub fn init_mode(&self) -> (mode: SteamworksInitMode)
        ensures
            mode == self@.mode,
    {
        self.mode
    }

    /// How this plugin reacts when Steamworks cannot be initialized.
    pub fn failure_policy_setting(&self) -> (policy: SteamworksFailurePolicy)
        ensures
            policy == self@.failure_policy,
    {
        self.failure_policy
    }

    /// Whether this plugin runs Steam callbacks automatically.
    pub fn runs_callbacks(&self) -> (runs: bool)
        ensures
            runs == self@.run_callbacks,
    {
        self.run_callbacks
    }

    /// Produces the client for a build: the one handed to the plugin (taken
    /// out of it), else one that `start` initializes with the mode's app id
    /// (`None`: from the environment).
    ///
    /// Manual mode without a client fails without calling `start`; an
    /// initialization that Steam refuses fails with the mode and Steam's error.
    pub fn initialize_client<F>(&mut self, start: F) -> (client: Result<C, SteamworksUnavailable>)
        where
            F: FnOnce(Option<u32>) -> Result<C, SteamworksInitError>,
        requires
            old(self)@.client is None && old(self)@.mode != SteamworksInitMode::Manual
                ==> call_requires(start, (init_app_id(old(self)@.mode),)),
        ensures
            final(self)@ == (SteamworksPluginView::<C> { client: None, ..old(self)@ }),
            match old(self)@.client {
                Some(injected) => client == Ok::<C, SteamworksUnavailable>(injected),
                None => if old(self)@.mode == SteamworksInitMode::Manual {
                    client == Err::<C, SteamworksUnavailable>(SteamworksUnavailable::ManualClientMissing)
                } else {
                    exists|started: Result<C, SteamworksInitError>|
                        call_ensures(start, (init_app_id(old(self)@.mode),), started)
                            && client == client_init_outcome(old(self)@.mode, started)
                },
            },
    {
        let injected = self.client.take();
        if let Some(client) = injected {
            return Ok(client);
        }
        match self.mode {
            SteamworksInitMode::Manual => Err(SteamworksUnavailable::ManualClientMissing),
            mode => {
                let started = start(mode.raw_app_id());
                client_init_result(mode, started)
            },
        }
    }
}

/// Authentication mode of a Steam game server.
#[derive(Clone, Copy, Debug, PartialEq, Eq, Hash, Structural)]
pub enum SteamworksServerMode {
    /// Don't authenticate user logins; the server is not listed.
    NoAuthentication,
    /// Authenticate users; the server is listed and VAC does not run.
    Authentication,
    /// Authenticate users and use anti-cheat.
    AuthenticationAndSecure,
}

/// Parameters of a Steam game server.
#[derive(Clone, Debug, PartialEq, Eq)]
pub struct SteamworksServerConfig {
    /// IPv4 address to bind, as a big-endian `u32`.
    pub ip: u32,
    /// Port that clients connect to.
    pub game_port: u16,
    /// Port for server browser queries.
    pub query_port: u16,
    /// Authentication mode.
    pub server_mode: SteamworksServerMode,
    /// Version string reported to Steam.
    pub version: String,
}

impl SteamworksServerConfig {
    /// Collects the parameters of a game server.
    pub fn new(
        ip: u32,
        game_port: u16,
        query_port: u16,
        server_mode: SteamworksServerMode,
        version: String,
    ) -> (config: Self)
        ensures
            config == (SteamworksServerConfig { ip, game_port, query_port, server_mode, version }),
    {
        SteamworksServerConfig { ip, game_port, query_port, server_mode, version }
    }
}

/// How the game server plugin creates or locates the server.
#[derive(Clone, Debug, PartialEq, Eq)]
pub enum SteamworksServerInitMode {
    /// Initialize a server with this configuration.
    Config(SteamworksServerConfig),
    /// Do not initialize; another layer inserts the server.
    Manual,
}

/// Why the Steam game server is not available.
#[derive(Clone, Debug, PartialEq, Eq)]
pub enum SteamworksServerUnavailable {
    /// Manual initialization was selected and no server was provided.
    ManualServerMissing,
    /// The configured version string holds a NUL byte.
    InvalidVersion,
    /// Steam refused to initialize the server.
    InitFailed(SteamworksInitError),
}

/// Configuration of the core Steam game server plugin, holding the server
/// handle `S` when one was handed to it.
pub struct SteamworksServerPlugin<S> {
    mode: SteamworksServerInitMode,
    failure_policy: SteamworksFailurePolicy,
    run_callbacks: bool,
    server: Option<S>,
}

/// Abstract value of the game server plugin's configuration.
pub struct SteamworksServerPluginView<S> {
    /// How the server is created or located.
    pub mode: SteamworksServerInitMode,
    /// Reaction to an initialization failure.
    pub failure_policy: SteamworksFailurePolicy,
    /// Whether Steam game server callbacks run automatically.
    pub run_callbacks: bool,
    /// The initialized server handed to the plugin, if any.
    pub server: Option<S>,
}

impl<S> View for SteamworksServerPlugin<S> {
    type V = SteamworksServerPluginView<S>;

    closed spec fn view(&self) -> SteamworksServerPluginView<S> {
        SteamworksServerPluginView {
            mode: self.mode,
            failure_policy: self.failure_policy,
            run_callbacks: self.run_callbacks,
            server: self.server,
        }
    }
}

/// A fresh game server plugin configuration for `mode`.
pub open spec fn server_configured<S>(mode: SteamworksServerInitMode) -> SteamworksServerPluginView<S> {
    SteamworksServerPluginView {
        mode,
        failure_policy: SteamworksFailurePolicy::Panic,
        run_callbacks: true,
        server: None,
    }
}

/// The configuration of a game server plugin built around `server`.
pub open spec fn server_configured_with_server<S>(server: S) -> SteamworksServerPluginView<S> {
    SteamworksServerPluginView { server: Some(server), ..server_configured(SteamworksServerInitMode::Manual) }
}

/// What initializing a game server from `config` reports, given Steam's
/// answer `started` to the call that a version without NUL bytes reaches.
pub open spec fn server_init_outcome<S>(
    started: Result<S, SteamworksInitError>,
) -> Result<S, SteamworksServerUnavailable> {
    match started {
        Ok(server) => Ok(server),
        Err(error) => Err(SteamworksServerUnavailable::InitFailed(error)),
    }
}

/// Initializes a game server from `config` through `start`, after refusing a
/// version string with a NUL byte, which Steam cannot take.
fn init_server<S, F>(config: &SteamworksServerConfig, start: F) -> (server: Result<S, SteamworksServerUnavailable>)
    where
        F: FnOnce(&SteamworksServerConfig) -> Result<S, SteamworksInitError>,
    requires
        !text_has_nul(config.version@) ==> call_requires(start, (config,)),
    ensures
        text_has_nul(config.version@) ==> server == Err::<S, SteamworksServerUnavailable>(
            SteamworksServerUnavailable::InvalidVersion,
        ),
        !text_has_nul(config.version@) ==> exists|started: Result<S, SteamworksInitError>|
            call_ensures(start, (config,), started) && server == server_init_outcome(started),
{
    if contains_nul(config.version.as_str()) {
        return Err(SteamworksServerUnavailable::InvalidVersion);
    }
    let started = start(config);
    let ghost answer = started;
    let server = match started {
        Ok(server) => Ok(server),
        Err(error) => Err(SteamworksServerUnavailable::InitFailed(error)),
    };
    assert(call_ensures(start, (config,), answer) && server == server_init_outcome(answer));
    server
}

impl<S> SteamworksServerPlugin<S> {
    /// A plugin that initializes a game server from `config`.
    pub fn new(config: SteamworksServerConfig) -> (plugin: Self)
        ensures
            plugin@ == server_configured::<S>(SteamworksServerInitMode::Config(config)),
    {
        SteamworksServerPlugin {
            mode: SteamworksServerInitMode::Config(config),
            failure_policy: SteamworksFailurePolicy::Panic,
            run_callbacks: true,
            server: None,
        }
    }

    /// A plugin that does not initialize a game server.
    pub fn manual() -> (plugin: Self)
        ensures
            plugin@ == server_configured::<S>(SteamworksServerInitMode::Manual),
    {
        SteamworksServerPlugin {
            mode: SteamworksServerInitMode::Manual,
            failure_policy: SteamworksFailurePolicy::Panic,
            run_callbacks: true,
            server: None,
        }
    }

    /// A plugin around an already initialized game server.
    pub fn from_server(server: S) -> (plugin: Self)
        ensures
            plugin@ == server_configured_with_server(server),
    {
        SteamworksServerPlugin {
            mode: SteamworksServerInitMode::Manual,
            failure_policy: SteamworksFailurePolicy::Panic,
            run_callbacks: true,
            server: Some(server),
        }
    }

    /// Initializes a game server now through `start` and wraps it; a version
    /// string with a NUL byte is refused before `start` is called.
    pub fn init<F>(config: SteamworksServerConfig, start: F) -> (plugin: Result<Self, SteamworksServerUnavailable>)
        where
            F: FnOnce(&SteamworksServerConfig) -> Result<S, SteamworksInitError>,
        requires
            !text_has_nul(config.version@) ==> call_requires(start, (&config,)),
        ensures
            text_has_nul(config.version@) ==> plugin matches Err(SteamworksServerUnavailable::InvalidVersion),
            !text_has_nul(config.version@) ==> exists|started: Result<S, SteamworksInitError>|
                call_ensures(start, (&config,), started) && match started {
                    Ok(server) => plugin matches Ok(p) && p@ == server_configured_with_server(server),
                    Err(error) => plugin == Err::<Self, SteamworksServerUnavailable>(
                        SteamworksServerUnavailable::InitFailed(error),
                    ),
                },
    {
        match init_server(&config, start) {
            Ok(server) => Ok(SteamworksServerPlugin::from_server(server)),
            Err(e) => Err(e),
        }
    }

    /// Sets the initialization failure policy.
    pub fn failure_policy(self, policy: SteamworksFailurePolicy) -> (plugin: Self)
        ensures
            plugin@ == (SteamworksServerPluginView { failure_policy: policy, ..self@ }),
    {
        let mut plugin = self;
        plugin.failure_policy = policy;
        plugin
    }

    /// Keeps the app running when the game server cannot be initialized.
    pub fn log_and_continue(self) -> (plugin: Self)
        ensures
            plugin@ == (SteamworksServerPluginView {
                failure_policy: SteamworksFailurePolicy::LogAndContinue,
                ..self@
            }),
    {
        self.failure_policy(SteamworksFailurePolicy::LogAndContinue)
    }

    /// Sets whether Steam game server callbacks run automatically.
    pub fn run_callbacks(self, run_callbacks: bool) -> (plugin: Self)
        ensures
            plugin@ == (SteamworksServerPluginView { run_callbacks, ..self@ }),
    {
        let mut plugin = self;
        plugin.run_callbacks = run_callbacks;
        plugin
    }

    /// How this plugin creates or locates the game server.
    pub fn init_mode(&self) -> (mode: &SteamworksServerInitMode)
        ensures
            *mode == self@.mode,
    {
        &self.mode
    }

    /// How this plugin reacts when the game server cannot be initialized.
    pub fn failure_policy_setting(&self) -> (policy: SteamworksFailurePolicy)
        ensures
            policy == self@.failure_policy,
    {
        self.failure_policy
    }

    /// Whether this plugin runs Steam game server callbacks automatically.
    pub fn runs_callbacks(&self) -> (runs: bool)
        ensures
            runs == self@.run_callbacks,
    {
        self.run_callbacks
    }

    /// Produces the game server for a build: the one handed to the plugin
    /// (taken out of it), else one that `start` initializes from the
    /// configuration.
    pub fn initialize_server<F>(&mut self, start: F) -> (server: Result<S, SteamworksServerUnavailable>)
        where
            F: FnOnce(&SteamworksServerConfig) -> Result<S, SteamworksInitError>,
        requires
            old(self)@.server is None ==> match old(self)@.mode {
                SteamworksServerInitMode::Config(c) => !text_has_nul(c.version@) ==> call_requires(start, (&c,)),
                SteamworksServerInitMode::Manual => true,
            },
        ensures
            final(self)@ == (SteamworksServerPluginView::<S> { server: None, ..old(self)@ }),
            match old(self)@.server {
                Some(injected) => server == Ok::<S, SteamworksServerUnavailable>(injected),
                None => match old(self)@.mode {
                    SteamworksServerInitMode::Manual => server == Err::<S, SteamworksServerUnavailable>(
                        SteamworksServerUnavailable::ManualServerMissing,
                    ),
                    SteamworksServerInitMode::Config(c) => if text_has_nul(c.version@) {
                        server == Err::<S, SteamworksServerUnavailable>(SteamworksServerUnavailable::InvalidVersion)
                    } else {
                        exists|started: Result<S, SteamworksInitError>|
                            call_ensures(start, (&c,), started) && server == server_init_outcome(started)
                    },
                },
            },
    {
        let injected = self.server.take();
        if let Some(server) = injected {
            return Ok(server);
        }
        match &self.mode {
            SteamworksServerInitMode::Config(config) => init_server(config, start),
            SteamworksServerInitMode::Manual => Err(SteamworksServerUnavailable::ManualServerMissing),
        }
    }
}

} // verus!
