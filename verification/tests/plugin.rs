use bevy_steamworks::plugin::{
    SteamworksFailurePolicy, SteamworksInitError, SteamworksInitMode, SteamworksPlugin,
    SteamworksServerConfig, SteamworksServerInitMode, SteamworksServerMode, SteamworksServerPlugin,
    SteamworksServerUnavailable, SteamworksUnavailable,
};
use bevy_steamworks::plugin_groups::{
    SteamworksClientPlugins, SteamworksPlugins, SteamworksServerFeaturePlugins, SteamworksServerPlugins,
};
use bevy_steamworks::registry::SteamworksCallbackRegistry;
use bevy_steamworks::remote_play::SteamworksRemotePlayPlugin;

/// Stand-in for the Steam client and server handles.
type Handle = u32;

fn steam_not_running(_app_id: Option<u32>) -> Result<Handle, SteamworksInitError> {
    Err(SteamworksInitError::NoSteamClient("steam is not running".to_owned()))
}

#[test]
fn manual_mode_can_continue_without_client() {
    let mut plugin = SteamworksPlugin::<Handle>::manual().log_and_continue();
    assert_eq!(plugin.failure_policy_setting(), SteamworksFailurePolicy::LogAndContinue);

    let unavailable = match plugin.initialize_client(|_| panic!("manual mode does not call Steam")) {
        Err(unavailable) => unavailable,
        Ok(_) => panic!("manual mode has no client"),
    };
    assert!(unavailable.is_manual_client_missing());
    assert!(!unavailable.is_init_failed());
    assert_eq!(unavailable.init_mode(), None);
    assert_eq!(unavailable.app_id(), None);
    assert_eq!(unavailable.raw_app_id(), None);
    assert_eq!(unavailable.init_error(), None);
    assert!(unavailable.message().starts_with("manual Steamworks initialization was selected"));
}

#[test]
fn configuration_accessors_expose_builder_settings() {
    let plugin = SteamworksPlugin::<Handle>::app_id(480)
        .failure_policy(SteamworksFailurePolicy::LogAndContinue)
        .run_callbacks(false);

    assert_eq!(plugin.init_mode(), SteamworksInitMode::AppId(480));
    assert_eq!(plugin.failure_policy_setting(), SteamworksFailurePolicy::LogAndContinue);
    assert!(!plugin.runs_callbacks());
}

#[test]
fn default_plugin_initializes_automatically_and_panics_on_failure() {
    let plugin = SteamworksPlugin::<Handle>::default();
    assert_eq!(plugin.init_mode(), SteamworksInitMode::Automatic);
    assert_eq!(plugin.failure_policy_setting(), SteamworksFailurePolicy::Panic);
    assert!(plugin.runs_callbacks());
    assert_eq!(SteamworksInitMode::AppId(480).raw_app_id(), Some(480));
    assert_eq!(SteamworksInitMode::Manual.raw_app_id(), None);
}

#[test]
fn init_failure_reports_mode_and_error() {
    let unavailable = SteamworksUnavailable::init_failed(
        SteamworksInitMode::AppId(480),
        SteamworksInitError::NoSteamClient("steam is not running".to_owned()),
    );
    assert!(unavailable.is_init_failed());
    assert!(!unavailable.is_manual_client_missing());
    assert_eq!(unavailable.init_mode(), Some(SteamworksInitMode::AppId(480)));
    assert_eq!(unavailable.app_id(), Some(480));
    assert_eq!(unavailable.raw_app_id(), Some(480));
    assert_eq!(
        unavailable.init_error(),
        Some(&SteamworksInitError::NoSteamClient("steam is not running".to_owned()))
    );
}

#[test]
fn plugins_group_wraps_configured_core_plugin() {
    let plugins = SteamworksPlugins::from_plugin(SteamworksPlugin::<Handle>::manual().log_and_continue());

    assert_eq!(plugins.init_mode(), SteamworksInitMode::Manual);
    assert_eq!(plugins.failure_policy_setting(), SteamworksFailurePolicy::LogAndContinue);
    assert!(plugins.runs_callbacks());
    assert_eq!(plugins.core_plugin().init_mode(), SteamworksInitMode::Manual);
}

#[test]
fn plugins_group_builders_forward_to_core_plugin() {
    let plugins = SteamworksPlugins::<Handle>::app_id(480)
        .client_plugins(SteamworksClientPlugins::new())
        .failure_policy(SteamworksFailurePolicy::LogAndContinue)
        .run_callbacks(false);

    assert_eq!(plugins.init_mode(), SteamworksInitMode::AppId(480));
    assert_eq!(plugins.failure_policy_setting(), SteamworksFailurePolicy::LogAndContinue);
    assert!(!plugins.runs_callbacks());
    assert_eq!(SteamworksPlugins::<Handle>::default().init_mode(), SteamworksInitMode::Automatic);
    assert_eq!(SteamworksPlugins::<Handle>::manual().failure_policy_setting(), SteamworksFailurePolicy::Panic);
}

#[test]
fn server_plugins_group_wraps_configured_core_plugin() {
    let config = SteamworksServerConfig::new(0, 27015, 27016, SteamworksServerMode::Authentication, "1.0.0".to_owned());
    let plugins = SteamworksServerPlugins::<Handle>::new(config.clone())
        .feature_plugins(SteamworksServerFeaturePlugins::new())
        .log_and_continue()
        .run_callbacks(false);

    assert_eq!(plugins.init_mode(), &SteamworksServerInitMode::Config(config));
    assert_eq!(plugins.failure_policy_setting(), SteamworksFailurePolicy::LogAndContinue);
    assert!(!plugins.runs_callbacks());

    let manual = SteamworksServerPlugins::<Handle>::manual();
    assert_eq!(manual.init_mode(), &SteamworksServerInitMode::Manual);
    assert_eq!(manual.failure_policy_setting(), SteamworksFailurePolicy::Panic);
}

#[test]
fn manual_server_plugin_reports_missing_server() {
    let mut plugin = SteamworksServerPlugin::<Handle>::manual();
    assert_eq!(
        plugin.initialize_server(|_| panic!("manual mode does not call Steam")).err(),
        Some(SteamworksServerUnavailable::ManualServerMissing)
    );
}

#[test]
fn server_version_with_nul_is_refused_before_steam() {
    let config = SteamworksServerConfig::new(0, 27015, 27016, SteamworksServerMode::NoAuthentication, "1\0".to_owned());
    let refused = SteamworksServerPlugin::<Handle>::init(config, |_| panic!("Steam is not called"));
    assert!(matches!(refused, Err(SteamworksServerUnavailable::InvalidVersion)));
}

#[test]
fn feature_plugin_collections_are_unit_values() {
    assert_eq!(SteamworksClientPlugins::new(), SteamworksClientPlugins);
    assert_eq!(SteamworksServerFeaturePlugins::new(), SteamworksServerFeaturePlugins);
    assert_eq!(SteamworksRemotePlayPlugin::new(), SteamworksRemotePlayPlugin);
}

#[test]
fn callback_registry_tracks_handles() {
    let mut registry: SteamworksCallbackRegistry<u32> = SteamworksCallbackRegistry::default();

    assert!(registry.is_empty());
    assert_eq!(registry.len(), 0);

    registry.register(1);
    registry.register(2);
    assert_eq!(registry.len(), 2);
    assert!(!registry.is_empty());
    registry.clear();
    assert!(registry.is_empty());
}

#[test]
fn injected_client_is_handed_out_once() {
    let mut plugin = SteamworksPlugin::from_client(7u32);
    assert_eq!(plugin.init_mode(), SteamworksInitMode::Manual);
    assert_eq!(plugin.initialize_client(|_| panic!("an injected client skips Steam")), Ok(7));
    assert_eq!(plugin.initialize_client(steam_not_running), Err(SteamworksUnavailable::ManualClientMissing));
}

#[test]
fn client_initialization_passes_the_app_id_and_reports_refusals() {
    let mut automatic = SteamworksPlugin::<Handle>::automatic();
    assert_eq!(automatic.initialize_client(|app_id| Ok(app_id.unwrap_or(1))), Ok(1));

    let mut with_app = SteamworksPlugin::<Handle>::app_id(480);
    assert_eq!(with_app.initialize_client(|app_id| Ok(app_id.unwrap_or(1))), Ok(480));

    let mut refused = SteamworksPlugin::<Handle>::app_id(480);
    assert_eq!(
        refused.initialize_client(steam_not_running),
        Err(SteamworksUnavailable::init_failed(
            SteamworksInitMode::AppId(480),
            SteamworksInitError::NoSteamClient("steam is not running".to_owned()),
        ))
    );
}

#[test]
fn server_initialization_uses_the_configuration() {
    let config = SteamworksServerConfig::new(0, 27015, 27016, SteamworksServerMode::Authentication, "1.0.0".to_owned());
    let mut plugin = SteamworksServerPlugin::<Handle>::new(config.clone());
    assert_eq!(plugin.initialize_server(|c| Ok(u32::from(c.game_port))), Ok(27015));

    let mut refused = SteamworksServerPlugin::<Handle>::new(config.clone());
    assert_eq!(
        refused.initialize_server(|_| Err(SteamworksInitError::FailedGeneric("no".to_owned()))),
        Err(SteamworksServerUnavailable::InitFailed(SteamworksInitError::FailedGeneric("no".to_owned())))
    );

    let started = SteamworksServerPlugins::<Handle>::init(config, |c| Ok(u32::from(c.query_port)));
    let plugins = match started {
        Ok(plugins) => plugins,
        Err(_) => panic!("the server starts"),
    };
    assert_eq!(plugins.init_mode(), &SteamworksServerInitMode::Manual);
    let (mut core, _) = plugins.into_parts();
    assert_eq!(core.initialize_server(|_| panic!("an injected server skips Steam")), Ok(27016));
}

#[test]
fn immediate_initialization_wraps_the_client_or_reports_steam() {
    let started = SteamworksPlugin::<Handle>::init_app(480, |app_id| Ok(app_id.unwrap_or(1)));
    let mut plugin = match started {
        Ok(plugin) => plugin,
        Err(_) => panic!("the client starts"),
    };
    assert_eq!(plugin.init_mode(), SteamworksInitMode::Manual);
    assert_eq!(plugin.initialize_client(steam_not_running), Ok(480));

    let mut automatic = match SteamworksPlugin::<Handle>::init(|app_id| Ok(app_id.unwrap_or(1))) {
        Ok(plugin) => plugin,
        Err(_) => panic!("the client starts"),
    };
    assert_eq!(automatic.initialize_client(steam_not_running), Ok(1));

    assert_eq!(
        SteamworksPlugin::<Handle>::init(steam_not_running).err(),
        Some(SteamworksInitError::NoSteamClient("steam is not running".to_owned()))
    );

    let group = match SteamworksPlugins::<Handle>::init_app(480, |app_id| Ok(app_id.unwrap_or(1))) {
        Ok(group) => group,
        Err(_) => panic!("the client starts"),
    };
    assert_eq!(group.init_mode(), SteamworksInitMode::Manual);
    let (mut core, _) = group.into_parts();
    assert_eq!(core.initialize_client(steam_not_running), Ok(480));
    assert!(SteamworksPlugins::<Handle>::init(steam_not_running).is_err());
}
