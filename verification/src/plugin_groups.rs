//! Plugin group configurations: the core lifecycle plugin together with the
//! default feature plugins.

use crate::plugin::{
    configured, configured_with_client, plugin_init_outcome, server_configured, server_configured_with_server,
    SteamworksFailurePolicy, SteamworksInitError, SteamworksInitMode, SteamworksPlugin,
    SteamworksPluginView, SteamworksServerConfig, SteamworksServerInitMode, SteamworksServerPlugin,
    SteamworksServerPluginView, SteamworksServerUnavailable,
};
use crate::networking_sockets::text_has_nul;
use vstd::prelude::*;

verus! {

/// Every default client-side high-level Steamworks feature plugin.
#[derive(Clone, Copy, Debug, Default, PartialEq, Eq)]
pub struct SteamworksClientPlugins;

impl SteamworksClientPlugins {
    /// The default client-side feature plugin collection.
    pub fn new() -> (plugins: Self)
        ensures
            plugins == SteamworksClientPlugins,
    {
        SteamworksClientPlugins
    }
}

/// The high-level feature plugins useful for Steam game server processes.
#[derive(Clone, Copy, Debug, Default, PartialEq, Eq)]
pub struct SteamworksServerFeaturePlugins;

impl SteamworksServerFeaturePlugins {
    /// The default server-side feature plugin collection.
    pub fn new() -> (plugins: Self)
        ensures
            plugins == SteamworksServerFeaturePlugins,
    {
        SteamworksServerFeaturePlugins
    }
}

/// Whether `plugins` is what initializing now reports after Steam answered
/// `started`: a plugin group around the client, or Steam's error.
pub open spec fn plugins_init_outcome<C>(
    started: Result<C, SteamworksInitError>,
    plugins: Result<SteamworksPlugins<C>, SteamworksInitError>,
) -> bool {
    match started {
        Ok(client) => plugins matches Ok(p) && p@ == configured_with_client(client),
        Err(error) => plugins == Err::<SteamworksPlugins<C>, SteamworksInitError>(error),
    }
}

/// Steamworks client initialization plus every default client feature plugin.
pub struct SteamworksPlugins<C> {
    core: SteamworksPlugin<C>,
    client_plugins: SteamworksClientPlugins,
}

impl<C> View for SteamworksPlugins<C> {
    type V = SteamworksPluginView<C>;

    /// The configuration of the core plugin.
    closed spec fn view(&self) -> SteamworksPluginView<C> {
        self.core@
    }
}

impl<C> Default for SteamworksPlugins<C> {
    /// Initialize from the environment.
    fn default() -> (plugins: Self)
        ensures
            plugins@ == configured::<C>(SteamworksInitMode::Automatic),
    {
        SteamworksPlugins::automatic()
    }
}

impl<C> SteamworksPlugins<C> {
    /// A plugin group that initializes Steamworks from the environment.
    pub fn automatic() -> (plugins: Self)
        ensures
            plugins@ == configured::<C>(SteamworksInitMode::Automatic),
    {
        SteamworksPlugins::from_plugin(SteamworksPlugin::automatic())
    }

    /// A plugin group that initializes Steamworks with a specific app id.
    pub fn app_id(app_id: u32) -> (plugins: Self)
        ensures
            plugins@ == configured::<C>(SteamworksInitMode::AppId(app_id)),
    {
        SteamworksPlugins::from_plugin(SteamworksPlugin::app_id(app_id))
    }

    /// A plugin group that does not initialize Steamworks.
    pub fn manual() -> (plugins: Self)
        ensures
            plugins@ == configured::<C>(SteamworksInitMode::Manual),
    {
        SteamworksPlugins::from_plugin(SteamworksPlugin::manual())
    }

    /// Initializes Steamworks now through `start`, from the environment, and
    /// wraps the client in the full client plugin group.
    pub fn init<F>(start: F) -> (plugins: Result<Self, SteamworksInitError>)
        where
            F: FnOnce(Option<u32>) -> Result<C, SteamworksInitError>,
        requires
            call_requires(start, (None::<u32>,)),
        ensures
            exists|started: Result<C, SteamworksInitError>|
                call_ensures(start, (None::<u32>,), started) && plugins_init_outcome(started, plugins),
    {
        let started = SteamworksPlugin::init(start);
        let ghost answer = choose|answer: Result<C, SteamworksInitError>|
            call_ensures(start, (None::<u32>,), answer) && plugin_init_outcome(answer, started);
        let plugins = match started {
            Ok(plugin) => Ok(SteamworksPlugins::from_plugin(plugin)),
            Err(e) => Err(e),
        };
        assert(call_ensures(start, (None::<u32>,), answer) && plugins_init_outcome(answer, plugins));
        plugins
    }

    /// Initializes Steamworks now through `start` with the app id `app_id`,
    /// and wraps the client in the full client plugin group.
    pub fn init_app<F>(app_id: u32, start: F) -> (plugins: Result<Self, SteamworksInitError>)
        where
            F: FnOnce(Option<u32>) -> Result<C, SteamworksInitError>,
        requires
            call_requires(start, (Some(app_id),)),
        ensures
            exists|started: Result<C, SteamworksInitError>|
                call_ensures(start, (Some(app_id),), started) && plugins_init_outcome(started, plugins),
    {
        let started = SteamworksPlugin::init_app(app_id, start);
        let ghost answer = choose|answer: Result<C, SteamworksInitError>|
            call_ensures(start, (Some(app_id),), answer) && plugin_init_outcome(answer, started);
        let plugins = match started {
            Ok(plugin) => Ok(SteamworksPlugins::from_plugin(plugin)),
            Err(e) => Err(e),
        };
        assert(call_ensures(start, (Some(app_id),), answer) && plugins_init_outcome(answer, plugins));
        plugins
    }

    /// A plugin group around an already initialized client.
    pub fn from_client(client: C) -> (plugins: Self)
        ensures
            plugins@ == configured_with_client(client),
    {
        SteamworksPlugins::from_plugin(SteamworksPlugin::from_client(client))
    }

    /// A plugin group around an already configured core plugin.
    pub fn from_plugin(plugin: SteamworksPlugin<C>) -> (plugins: Self)
        ensures
            plugins@ == plugin@,
    {
        SteamworksPlugins { core: plugin, client_plugins: SteamworksClientPlugins::new() }
    }

    /// Replaces the client-side feature plugin collection.
    pub fn client_plugins(self, client_plugins: SteamworksClientPlugins) -> (plugins: Self)
        ensures
            plugins@ == self@,
    {
        SteamworksPlugins { core: self.core, client_plugins }
    }

    /// Sets the initialization failure policy.
    pub fn failure_policy(self, policy: SteamworksFailurePolicy) -> (plugins: Self)
        ensures
            plugins@ == (SteamworksPluginView { failure_policy: policy, ..self@ }),
    {
        SteamworksPlugins {
            core: self.core.failure_policy(policy),
            client_plugins: self.client_plugins,
        }
    }

    /// Keeps the app running when Steamworks cannot be initialized.
    pub fn log_and_continue(self) -> (plugins: Self)
        ensures
            plugins@ == (SteamworksPluginView {
                failure_policy: SteamworksFailurePolicy::LogAndContinue,
                ..self@
            }),
    {
        self.failure_policy(SteamworksFailurePolicy::LogAndContinue)
    }

    /// Sets whether Steam callbacks run automatically.
    pub fn run_callbacks(self, run_callbacks: bool) -> (plugins: Self)
        ensures
            plugins@ == (SteamworksPluginView { run_callbacks, ..self@ }),
    {
        SteamworksPlugins {
            core: self.core.run_callbacks(run_callbacks),
            client_plugins: self.client_plugins,
        }
    }

    /// The configured core plugin.
    pub fn core_plugin(&self) -> (core: &SteamworksPlugin<C>)
        ensures
            core@ == self@,
    {
        &self.core
    }

    /// Takes the configured core plugin and feature plugins apart.
    pub fn into_parts(self) -> (parts: (SteamworksPlugin<C>, SteamworksClientPlugins))
        ensures
            parts.0@ == self@,
    {
        (self.core, self.client_plugins)
    }

    /// How the core plugin creates or locates the client.
    pub fn init_mode(&self) -> (mode: SteamworksInitMode)
        ensures
            mode == self@.mode,
    {
        self.core.init_mode()
    }

    /// How the core plugin reacts when Steamworks cannot be initialized.
    pub fn failure_policy_setting(&self) -> (policy: SteamworksFailurePolicy)
        ensures
            policy == self@.failure_policy,
    {
        self.core.failure_policy_setting()
    }

    /// Whether the core plugin runs Steam callbacks automatically.
    pub fn runs_callbacks(&self) -> (runs: bool)
        ensures
            runs == self@.run_callbacks,
    {
        self.core.runs_callbacks()
    }
}

/// Steam game server initialization plus the default server feature plugins.
pub struct SteamworksServerPlugins<S> {
    core: SteamworksServerPlugin<S>,
    feature_plugins: SteamworksServerFeaturePlugins,
}

impl<S> View for SteamworksServerPlugins<S> {
    type V = SteamworksServerPluginView<S>;

    /// The configuration of the core game server plugin.
    closed spec fn view(&self) -> SteamworksServerPluginView<S> {
        self.core@
    }
}

impl<S> SteamworksServerPlugins<S> {
    /// A plugin group that initializes a game server from `config`.
    pub fn new(config: SteamworksServerConfig) -> (plugins: Self)
        ensures
            plugins@ == server_configured::<S>(SteamworksServerInitMode::Config(config)),
    {
        SteamworksServerPlugins::from_plugin(SteamworksServerPlugin::new(config))
    }

    /// A plugin group that does not initialize a game server.
    pub fn manual() -> (plugins: Self)
        ensures
            plugins@ == server_configured::<S>(SteamworksServerInitMode::Manual),
    {
        SteamworksServerPlugins::from_plugin(SteamworksServerPlugin::manual())
    }

    /// Initializes a game server now through `start` and wraps it; a
    /// version string with a NUL byte is refused before `start` is called.
    pub fn init<F>(config: SteamworksServerConfig, start: F) -> (plugins: Result<Self, SteamworksServerUnavailable>)
        where
            F: FnOnce(&SteamworksServerConfig) -> Result<S, SteamworksInitError>,
        requires
            !text_has_nul(config.version@) ==> call_requires(start, (&config,)),
        ensures
            text_has_nul(config.version@) ==> plugins matches Err(SteamworksServerUnavailable::InvalidVersion),
            !text_has_nul(config.version@) ==> exists|started: Result<S, SteamworksInitError>|
                call_ensures(start, (&config,), started) && match started {
                    Ok(server) => plugins matches Ok(p) && p@ == server_configured_with_server(server),
                    Err(error) => plugins == Err::<Self, SteamworksServerUnavailable>(
                        SteamworksServerUnavailable::InitFailed(error),
                    ),
                },
    {
        match SteamworksServerPlugin::init(config, start) {
            Ok(plugin) => Ok(SteamworksServerPlugins::from_plugin(plugin)),
            Err(e) => Err(e),
        }
    }

    /// A plugin group around an already initialized game server.
    pub fn from_server(server: S) -> (plugins: Self)
        ensures
            plugins@ == server_configured_with_server(server),
    {
        SteamworksServerPlugins::from_plugin(SteamworksServerPlugin::from_server(server))
    }

    /// A plugin group around an already configured core game server plugin.
    pub fn from_plugin(plugin: SteamworksServerPlugin<S>) -> (plugins: Self)
        ensures
            plugins@ == plugin@,
    {
        SteamworksServerPlugins {
            core: plugin,
            feature_plugins: SteamworksServerFeaturePlugins::new(),
        }
    }

    /// Replaces the server-side feature plugin collection.
    pub fn feature_plugins(self, feature_plugins: SteamworksServerFeaturePlugins) -> (plugins: Self)
        ensures
            plugins@ == self@,
    {
        SteamworksServerPlugins { core: self.core, feature_plugins }
    }

    /// Sets the initialization failure policy.
    pub fn failure_policy(self, policy: SteamworksFailurePolicy) -> (plugins: Self)
        ensures
            plugins@ == (SteamworksServerPluginView { failure_policy: policy, ..self@ }),
    {
        SteamworksServerPlugins {
            core: self.core.failure_policy(policy),
            feature_plugins: self.feature_plugins,
        }
    }

    /// Keeps the app running when the game server cannot be initialized.
    pub fn log_and_continue(self) -> (plugins: Self)
        ensures
            plugins@ == (SteamworksServerPluginView {
                failure_policy: SteamworksFailurePolicy::LogAndContinue,
                ..self@
            }),
    {
        self.failure_policy(SteamworksFailurePolicy::LogAndContinue)
    }

    /// Sets whether Steam game server callbacks run automatically.
    pub fn run_callbacks(self, run_callbacks: bool) -> (plugins: Self)
        ensures
            plugins@ == (SteamworksServerPluginView { run_callbacks, ..self@ }),
    {
        SteamworksServerPlugins {
            core: self.core.run_callbacks(run_callbacks),
            feature_plugins: self.feature_plugins,
        }
    }

    /// The configured core game server plugin.
    pub fn core_plugin(&self) -> (core: &SteamworksServerPlugin<S>)
        ensures
            core@ == self@,
    {
        &self.core
    }

    /// Takes the configured core plugin and feature plugins apart.
    pub fn into_parts(self) -> (parts: (SteamworksServerPlugin<S>, SteamworksServerFeaturePlugins))
        ensures
            parts.0@ == self@,
    {
        (self.core, self.feature_plugins)
    }

    /// How the core plugin creates or locates the game server.
    pub fn init_mode(&self) -> (mode: &SteamworksServerInitMode)
        ensures
            *mode == self@.mode,
    {
        self.core.init_mode()
    }

    /// How the core plugin reacts when the game server cannot be initialized.
    pub fn failure_policy_setting(&self) -> (policy: SteamworksFailurePolicy)
        ensures
            policy == self@.failure_policy,
    {
        self.core.failure_policy_setting()
    }

    /// Whether the core plugin runs Steam game server callbacks automatically.
    pub fn runs_callbacks(&self) -> (runs: bool)
        ensures
            runs == self@.run_callbacks,
    {
        self.core.runs_callbacks()
    }
}

} // verus!
