use aibar::config::{AIEngine, AppConfig};
use aibar::launch::{Surface, WindowCommand};
use aibar::service::{broadcast_script, Command, ConfigService, PendingRegistration, SaveStep};

fn t(name: &str) -> AIEngine {
    AIEngine {
        name: name.to_string(),
        url: format!("https://{}.example/search?q=", name),
        logo: format!("{}.png", name),
    }
}

fn config(shortcut: &str, names: &[&str], default_ai: usize) -> AppConfig {
    AppConfig {
        shortcut: shortcut.to_string(),
        ai_engines: names.iter().map(|name| t(name)).collect(),
        default_ai,
        theme: "dark".to_string(),
        auto_start: false,
    }
}

/// A service started on `persisted` whose startup registration was granted.
fn running(persisted: AppConfig) -> ConfigService {
    let (pending, _) = ConfigService::startup(Some(persisted));
    let (service, result) = pending.finish(Ok(()));
    assert_eq!(result, Ok(vec![]));
    assert!(service.is_bound());
    service
}

/// A service started on `persisted` whose startup registration was refused.
fn running_unbound(persisted: AppConfig) -> ConfigService {
    let (pending, _) = ConfigService::startup(Some(persisted));
    let (service, result) = pending.finish(Err("taken".to_string()));
    assert!(result.is_err());
    assert!(!service.is_bound());
    service
}

fn save(service: ConfigService, wanted: &AppConfig, default_ai: Option<usize>) -> SaveStep {
    service.save_config_command(
        wanted.shortcut.clone(),
        wanted.theme.clone(),
        wanted.auto_start,
        wanted.ai_engines.clone(),
        default_ai,
    )
}

/// The outcome of a save that leaves the shortcut as it is.
fn saved(step: SaveStep) -> (ConfigService, Vec<Command>) {
    match step {
        SaveStep::Saved { service, commands } => (service, commands),
        SaveStep::Registering { commands, .. } => panic!("save rebinds: {:?}", commands),
    }
}

/// The outcome of a save that changes the shortcut.
fn registering(step: SaveStep) -> (PendingRegistration, Vec<Command>) {
    match step {
        SaveStep::Registering { pending, commands } => (pending, commands),
        SaveStep::Saved { commands, .. } => panic!("save does not rebind: {:?}", commands),
    }
}

fn touches_binding(commands: &[Command]) -> bool {
    commands
        .iter()
        .any(|command| matches!(command, Command::Unregister(_) | Command::Register(_)))
}

#[test]
fn startup_without_file_persists_the_default() {
    let (pending, commands) = ConfigService::startup(None);
    assert_eq!(
        commands,
        vec![
            Command::Persist(AppConfig::default()),
            Command::Broadcast(AppConfig::default()),
            Command::SyncAutostart(false),
            Command::Register("Alt+Space".to_string()),
        ]
    );
    let (service, _) = pending.finish(Ok(()));
    assert_eq!(service.get_config(), AppConfig::default());
}

#[test]
fn startup_with_file_writes_nothing() {
    let mut stored = config("Ctrl+J", &["a", "b"], 1);
    stored.auto_start = true;
    let (pending, commands) = ConfigService::startup(Some(stored.clone()));
    assert_eq!(
        commands,
        vec![
            Command::Broadcast(stored.clone()),
            Command::SyncAutostart(true),
            Command::Register("Ctrl+J".to_string()),
        ]
    );
    let (service, _) = pending.finish(Ok(()));
    assert_eq!(service.get_config(), stored);
}

#[test]
fn startup_repairs_an_index_outside_the_list() {
    let (pending, commands) = ConfigService::startup(Some(config("Ctrl+J", &["a", "b"], 2)));
    let repaired = config("Ctrl+J", &["a", "b"], 0);
    assert_eq!(commands[0], Command::Broadcast(repaired.clone()));
    let (service, _) = pending.finish(Ok(()));
    assert_eq!(service.get_config(), repaired);
    assert!(service.get_config().default_ai < service.get_config().ai_engines.len());

    let service = running(config("Ctrl+J", &[], 9));
    assert_eq!(service.get_config().default_ai, 0);
}

#[test]
fn startup_registration_success_binds() {
    let (pending, _) = ConfigService::startup(None);
    let (service, result) = pending.finish(Ok(()));
    assert_eq!(result, Ok(vec![]));
    assert!(service.is_bound());
    assert_eq!(service.get_config(), AppConfig::default());
}

#[test]
fn startup_registration_refusal_is_reported_and_leaves_unbound() {
    let (pending, _) = ConfigService::startup(None);
    let (service, result) = pending.finish(Err("taken by another program".to_string()));
    assert_eq!(result, Err("Failed to register shortcut: taken by another program".to_string()));
    assert!(!service.is_bound());
    assert_eq!(service.get_config(), AppConfig::default());
}

#[test]
fn get_config_hands_out_a_copy() {
    let service = running(config("Alt+Space", &["a"], 0));
    let mut copy = service.get_config();
    copy.theme = "light".to_string();
    copy.ai_engines.clear();
    assert_eq!(service.get_config(), config("Alt+Space", &["a"], 0));
}

#[test]
fn save_with_index_past_the_list_takes_the_last_target() {
    let service = running(config("Alt+Space", &["T0", "T1"], 1));
    let wanted = config("Alt+Space", &["T0", "T1"], 1);
    let (service, commands) = saved(save(service, &wanted, Some(5)));
    assert_eq!(service.get_config().default_ai, 1);
    assert_eq!(service.get_config(), wanted);
    assert_eq!(commands[0], Command::Persist(wanted));
}

#[test]
fn save_without_index_takes_the_first_target() {
    let service = running(config("Alt+Space", &["T0", "T1"], 1));
    let wanted = config("Alt+Space", &["T0", "T1", "T2"], 0);
    let (service, _) = saved(save(service, &wanted, None));
    assert_eq!(service.get_config().default_ai, 0);
    let (service, _) = saved(save(service, &wanted, Some(2)));
    assert_eq!(service.get_config().default_ai, 2);
    let (service, _) = saved(save(service, &wanted, Some(3)));
    assert_eq!(service.get_config().default_ai, 2);
}

#[test]
fn save_without_targets_has_index_zero() {
    let service = running(config("Alt+Space", &["T0", "T1"], 1));
    let wanted = config("Alt+Space", &[], 0);
    let (service, commands) = saved(save(service, &wanted, Some(7)));
    assert_eq!(service.get_config().default_ai, 0);
    assert_eq!(service.get_config(), wanted);
    assert_eq!(commands[0], Command::Persist(wanted));
}

#[test]
fn save_with_unchanged_shortcut_never_rebinds() {
    let service = running(config("Alt+Space", &["a"], 0));
    let mut wanted = config("Alt+Space", &["a", "b"], 1);
    wanted.theme = "light".to_string();
    wanted.auto_start = true;
    let (service, commands) = saved(save(service, &wanted, Some(1)));
    assert!(!touches_binding(&commands));
    assert_eq!(
        commands,
        vec![
            Command::Persist(wanted.clone()),
            Command::SyncAutostart(true),
            Command::Broadcast(wanted.clone()),
        ]
    );
    assert!(service.is_bound());
    assert_eq!(service.get_config(), wanted);
}

#[test]
fn save_with_unchanged_shortcut_keeps_an_unbound_service_unbound() {
    let service = running_unbound(config("Alt+Space", &["a"], 0));
    let (service, commands) = saved(save(service, &config("Alt+Space", &["a"], 0), Some(0)));
    assert!(!touches_binding(&commands));
    assert!(!service.is_bound());
}

#[test]
fn save_with_new_shortcut_unregisters_then_registers() {
    let service = running(config("Alt+Space", &["a"], 0));
    let wanted = config("Ctrl+K", &["a"], 0);
    let (_pending, commands) = registering(save(service, &wanted, Some(0)));
    assert_eq!(
        commands,
        vec![
            Command::Persist(wanted.clone()),
            Command::SyncAutostart(false),
            Command::Unregister("Alt+Space".to_string()),
            Command::Register("Ctrl+K".to_string()),
        ]
    );
}

#[test]
fn successful_rebinding_broadcasts_the_saved_configuration() {
    let service = running(config("Alt+Space", &["a"], 0));
    let wanted = config("Ctrl+K", &["a", "b"], 1);
    let (pending, _) = registering(save(service, &wanted, Some(1)));
    let (service, follow_up) = pending.finish(Ok(()));
    assert_eq!(follow_up, Ok(vec![Command::Broadcast(wanted.clone())]));
    assert!(service.is_bound());
    assert_eq!(service.get_config(), wanted);
}

#[test]
fn refused_rebinding_ends_unbound_without_rollback() {
    let service = running(config("Alt+Space", &["a"], 0));
    let wanted = config("Ctrl+K", &["a"], 0);
    let (pending, _) = registering(save(service, &wanted, Some(0)));
    let (service, follow_up) = pending.finish(Err("combination in use".to_string()));
    assert_eq!(follow_up, Err("Failed to register shortcut: combination in use".to_string()));
    assert!(!service.is_bound());
    assert_eq!(service.get_config(), wanted);
    assert_eq!(service.get_config().shortcut, "Ctrl+K");
}

#[test]
fn save_after_refused_rebinding_still_releases_the_previous_shortcut() {
    let service = running(config("Alt+Space", &["a"], 0));
    let (pending, _) = registering(save(service, &config("Ctrl+K", &["a"], 0), Some(0)));
    let (service, refused) = pending.finish(Err("in use".to_string()));
    assert!(refused.is_err());
    let (pending, commands) = registering(save(service, &config("Ctrl+L", &["a"], 0), Some(0)));
    assert_eq!(commands[2], Command::Unregister("Ctrl+K".to_string()));
    assert_eq!(commands[3], Command::Register("Ctrl+L".to_string()));
    assert_eq!(commands.len(), 4);
    let (service, granted) = pending.finish(Ok(()));
    assert_eq!(granted.map(|follow_up| follow_up.len()), Ok(1));
    assert!(service.is_bound());
}

#[test]
fn second_identical_save_changes_nothing() {
    let service = running(config("Alt+Space", &["a"], 0));
    let mut wanted = config("Ctrl+K", &["a", "b", "c"], 2);
    wanted.auto_start = true;

    let (pending, first) = registering(save(service, &wanted, Some(9)));
    assert!(touches_binding(&first));
    let (service, _) = pending.finish(Ok(()));
    let settled_config = service.get_config();
    let settled_bound = service.is_bound();

    let (service, second) = saved(save(service, &wanted, Some(9)));
    assert!(!touches_binding(&second));
    assert_eq!(
        second,
        vec![
            Command::Persist(wanted.clone()),
            Command::SyncAutostart(true),
            Command::Broadcast(wanted.clone()),
        ]
    );
    assert_eq!(second[0], first[0]);
    assert_eq!(service.get_config(), settled_config);
    assert_eq!(service.is_bound(), settled_bound);
}

#[test]
fn second_identical_save_after_refusal_changes_nothing() {
    let service = running(config("Alt+Space", &["a"], 0));
    let wanted = config("Ctrl+K", &["a"], 0);
    let (pending, first) = registering(save(service, &wanted, None));
    let (service, refused) = pending.finish(Err("in use".to_string()));
    assert!(refused.is_err());

    let (service, second) = saved(save(service, &wanted, None));
    assert!(!touches_binding(&second));
    assert_eq!(second[0], first[0]);
    assert!(!service.is_bound());
    assert_eq!(service.get_config(), wanted);
}

#[test]
fn saved_configuration_survives_a_restart() {
    let service = running(config("Alt+Space", &[], 0));
    let wanted = config("Ctrl+K", &["a", "b"], 1);
    let (pending, commands) = registering(save(service, &wanted, Some(4)));
    let (service, _) = pending.finish(Ok(()));
    let written = match &commands[0] {
        Command::Persist(written) => written.clone(),
        other => panic!("first command is {:?}", other),
    };
    let (restarting, startup_commands) = ConfigService::startup(Some(written));
    let (restarted, _) = restarting.finish(Ok(()));
    assert_eq!(restarted.get_config(), service.get_config());
    assert!(!startup_commands.iter().any(|command| matches!(command, Command::Persist(_))));
}

#[test]
fn hotkey_on_unconfigured_service_brings_up_settings() {
    let service = running(config("Alt+Space", &[], 0));
    let step = service.hotkey_fired(true, false);
    assert_eq!(step.surface, Surface::Settings);
    assert_eq!(step.commands, vec![WindowCommand::Create, WindowCommand::Show]);
    let step = service.hotkey_fired(true, true);
    assert_eq!(step.surface, Surface::Settings);
    assert_eq!(
        step.commands,
        vec![WindowCommand::Show, WindowCommand::Focus, WindowCommand::Center]
    );
}

#[test]
fn hotkey_on_configured_service_brings_up_the_search_window() {
    let service = running(config("Alt+Space", &[], 0));
    let (service, _) = saved(save(service, &config("Alt+Space", &["a"], 0), None));
    let step = service.hotkey_fired(true, true);
    assert_eq!(step.surface, Surface::Main);
    assert_eq!(step.commands, vec![WindowCommand::Show, WindowCommand::Focus]);
}

#[test]
fn broadcast_script_calls_update_config_with_the_json() {
    assert_eq!(
        broadcast_script("{\"theme\":\"dark\"}"),
        "window.updateConfig && window.updateConfig({\"theme\":\"dark\"})"
    );
    assert_eq!(broadcast_script(""), "window.updateConfig && window.updateConfig()");
}
