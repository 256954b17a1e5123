//! The boundary that the user interface talks to: reading the configuration,
//! saving a new one, and everything a save sets off.
//!
//! The service owns the configuration store and the shortcut coordinator.
//! Each operation changes that state and answers with the commands that the
//! surrounding program carries out, in order. The one command whose outcome
//! matters, the registration of a shortcut, is answered by a second call.

use vstd::prelude::*;
use vstd::string::StringExecFns;
use crate::config::{AIEngine, AIEngineView, AppConfig, AppConfigView, engines_view, requested_config};
use crate::launch::{HotkeyStep, hotkey_commands, on_hotkey, surface_for};
use crate::shortcut::{Binding, ShortcutCoordinator, registration_error};
use crate::store::{ConfigStore, loaded_config, persisted_view};

verus! {

/// One effect that the surrounding program carries out for the service.
///
/// Only `Register` reports back. A failure of any other command is logged
/// by the caller and changes nothing.
#[derive(Debug, PartialEq, Eq)]
pub enum Command {
    /// Write this configuration to the persisted file.
    Persist(AppConfig),
    /// Bring the autostart registration in line with this flag.
    SyncAutostart(bool),
    /// Release the registration of this hotkey spec.
    Unregister(String),
    /// Register this hotkey spec and report how it went.
    Register(String),
    /// Push this configuration to every open window.
    Broadcast(AppConfig),
}

/// Mathematical value of a [`Command`].
pub enum CommandView {
    Persist(AppConfigView),
    SyncAutostart(bool),
    Unregister(Seq<char>),
    Register(Seq<char>),
    Broadcast(AppConfigView),
}

impl View for Command {
    type V = CommandView;

    open spec fn view(&self) -> CommandView {
        match self {
            Command::Persist(config) => CommandView::Persist(config@),
            Command::SyncAutostart(enable) => CommandView::SyncAutostart(*enable),
            Command::Unregister(spec) => CommandView::Unregister(spec@),
            Command::Register(spec) => CommandView::Register(spec@),
            Command::Broadcast(config) => CommandView::Broadcast(config@),
        }
    }
}

/// Text of the script that hands a configuration, given as JSON text, to a
/// window: the window's `updateConfig` is called with it, if the window has
/// one.
pub open spec fn update_script(config_json: Seq<char>) -> Seq<char> {
    "window.updateConfig && window.updateConfig("@ + config_json + ")"@
}

/// Builds the script that carries out a [`Command::Broadcast`] in one
/// window, for the configuration whose JSON text is `config_json`.
pub fn broadcast_script(config_json: &str) -> (script: String)
    ensures
        script@ == update_script(config_json@),
{
    let mut script: String = "window.updateConfig && window.updateConfig(".to_string();
    script.append(config_json);
    script.append(")");
    script
}

/// The commands of a list, each by its value, in order.
pub open spec fn commands_view(commands: Seq<Command>) -> Seq<CommandView> {
    commands.map_values(|command: Command| command@)
}

/// The operation that a registration belongs to.
#[derive(Debug, Clone, Copy, PartialEq, Eq)]
pub enum Origin {
    /// The start of the service.
    Startup,
    /// A save that changed the shortcut.
    Save,
}

/// Mathematical value of a [`ConfigService`]: the live configuration and the
/// hotkey binding.
pub struct ServiceView {
    pub config: AppConfigView,
    pub binding: Binding,
}

impl ServiceView {
    /// What holds of every state of the service: the configuration is valid,
    /// and a registration that is held is that of the configured shortcut.
    pub open spec fn consistent(self) -> bool {
        &&& self.config.valid()
        &&& self.binding is Bound ==> self.binding == Binding::Bound(self.config.shortcut)
    }

    /// State of a service that starts on what the persisted file held.
    pub open spec fn started(persisted: Option<AppConfigView>) -> ServiceView {
        ServiceView { config: loaded_config(persisted), binding: Binding::Unbound }
    }

    /// Commands of a start: the first-run configuration is written back
    /// where it took the place of the file; then the configuration is pushed
    /// to the windows, autostart is brought in line, and the shortcut is
    /// registered.
    pub open spec fn startup_commands(persisted: Option<AppConfigView>) -> Seq<CommandView> {
        let config = loaded_config(persisted);
        let write_back = if persisted is None {
            seq![CommandView::Persist(config)]
        } else {
            Seq::empty()
        };
        write_back + seq![
            CommandView::Broadcast(config),
            CommandView::SyncAutostart(config.auto_start),
            CommandView::Register(config.shortcut),
        ]
    }

    /// Whether saving `request` has to move the hotkey binding: it has to
    /// where the shortcut changes.
    pub open spec fn rebinds(self, request: AppConfigView) -> bool {
        request.shortcut != self.config.shortcut
    }

    /// State after saving `request`: the configuration is replaced as a
    /// whole; the binding is given up where it has to move.
    pub open spec fn saved(self, request: AppConfigView) -> ServiceView {
        ServiceView {
            config: request,
            binding: if self.rebinds(request) {
                Binding::Unbound
            } else {
                self.binding
            },
        }
    }

    /// Commands of saving `request`: persist it and bring autostart in line;
    /// then, where the binding stays, push it to the windows, or else
    /// unregister the old shortcut and register the new one.
    ///
    /// The old shortcut is unregistered even where no binding is held: a
    /// registration may have outlived an unregistration that failed.
    pub open spec fn save_commands(self, request: AppConfigView) -> Seq<CommandView> {
        let committed = seq![
            CommandView::Persist(request),
            CommandView::SyncAutostart(request.auto_start),
        ];
        if self.rebinds(request) {
            committed + seq![
                CommandView::Unregister(self.config.shortcut),
                CommandView::Register(request.shortcut),
            ]
        } else {
            committed + seq![CommandView::Broadcast(request)]
        }
    }

    /// State after the operating system answered an attempt to register the
    /// configured shortcut: bound to it on success, unbound on refusal. The
    /// configuration stays as it is either way.
    pub open spec fn registered(self, success: bool) -> ServiceView {
        ServiceView {
            config: self.config,
            binding: Binding::after_attempt(self.config.shortcut, success),
        }
    }

    /// Commands that follow a granted registration: after a save the saved
    /// configuration is pushed to the windows; after a start nothing is
    /// left to do.
    pub open spec fn follow_up(self, origin: Origin) -> Seq<CommandView> {
        match origin {
            Origin::Startup => Seq::empty(),
            Origin::Save => seq![CommandView::Broadcast(self.config)],
        }
    }
}

/// Every state that the service reaches is consistent: a start gives a
/// consistent state, and saving a valid request or hearing of a registration
/// keeps it so.
pub proof fn law_states_stay_consistent(
    persisted: Option<AppConfigView>,
    state: ServiceView,
    request: AppConfigView,
    success: bool,
)
    requires
        state.consistent(),
        request.valid(),
    ensures
        ServiceView::started(persisted).consistent(),
        state.saved(request).consistent(),
        state.registered(success).consistent(),
{
}

/// A start on a missing or unreadable file holds exactly the first-run
/// configuration, and its first command writes that configuration to the
/// file. A start on a readable file writes nothing.
pub proof fn law_start_without_file_writes_initial(config: AppConfigView)
    ensures
        ServiceView::started(None).config == AppConfigView::initial(),
        ServiceView::startup_commands(None) == seq![
            CommandView::Persist(AppConfigView::initial()),
            CommandView::Broadcast(AppConfigView::initial()),
            CommandView::SyncAutostart(false),
            CommandView::Register("Alt+Space"@),
        ],
        forall|i: int|
            0 <= i < ServiceView::startup_commands(Some(config)).len()
                ==> !(#[trigger] ServiceView::startup_commands(Some(config))[i] is Persist),
{
}

/// Without targets the default index is 0, after a start and after a save,
/// whatever index the file or the request held.
pub proof fn law_no_targets_means_index_zero(
    persisted: AppConfigView,
    state: ServiceView,
    shortcut: Seq<char>,
    theme: Seq<char>,
    auto_start: bool,
    default_ai: Option<usize>,
)
    requires
        persisted.ai_engines.len() == 0,
    ensures
        ServiceView::started(Some(persisted)).config.default_ai == 0,
        ServiceView::started(None).config.default_ai == 0,
        state.saved(
            requested_config(shortcut, theme, auto_start, Seq::empty(), default_ai),
        ).config.default_ai == 0,
{
}

/// With targets the default index names one of them after a start and after
/// a save, whatever index the file or the request held.
pub proof fn law_index_names_a_target(
    persisted: AppConfigView,
    state: ServiceView,
    shortcut: Seq<char>,
    theme: Seq<char>,
    auto_start: bool,
    ai_engines: Seq<AIEngineView>,
    default_ai: Option<usize>,
)
    requires
        persisted.ai_engines.len() > 0,
        ai_engines.len() > 0,
    ensures
        ServiceView::started(Some(persisted)).config.default_ai < persisted.ai_engines.len(),
        state.saved(
            requested_config(shortcut, theme, auto_start, ai_engines, default_ai),
        ).config.default_ai < ai_engines.len(),
{
}

/// Saving the same request twice in a row: the second save changes nothing.
///
/// Whatever state the first save started from and however its registration
/// went, the second save leaves configuration and binding as they are, asks
/// for no unregistration and no registration, and persists exactly what the
/// first one persisted.
pub proof fn law_second_save_changes_nothing(
    state: ServiceView,
    request: AppConfigView,
    success: bool,
)
    ensures
        ({
            let first = state.saved(request);
            let settled = if state.rebinds(request) {
                first.registered(success)
            } else {
                first
            };
            &&& !settled.rebinds(request)
            &&& settled.saved(request) == settled
            &&& settled.save_commands(request) == seq![
                CommandView::Persist(request),
                CommandView::SyncAutostart(request.auto_start),
                CommandView::Broadcast(request),
            ]
            &&& settled.save_commands(request)[0] == state.save_commands(request)[0]
        }),
{
}

/// A save that leaves the shortcut as it is never touches the binding: its
/// commands hold no unregistration and no registration, and the binding is
/// the one from before.
pub proof fn law_unchanged_shortcut_is_not_rebound(state: ServiceView, request: AppConfigView)
    requires
        request.shortcut == state.config.shortcut,
    ensures
        !state.rebinds(request),
        state.saved(request).binding == state.binding,
        forall|i: int|
            0 <= i < state.save_commands(request).len() ==> {
                let command = #[trigger] state.save_commands(request)[i];
                !(command is Unregister) && !(command is Register)
            },
{
}

/// A save that changes the shortcut, with the new registration refused,
/// ends unbound with the new configuration in place: the old shortcut is
/// unregistered before the new one is tried, and nothing is rolled back.
pub proof fn law_refused_registration_is_not_rolled_back(
    state: ServiceView,
    request: AppConfigView,
)
    requires
        request.shortcut != state.config.shortcut,
    ensures
        state.rebinds(request),
        state.saved(request).binding == Binding::Unbound,
        state.saved(request).registered(false).binding == Binding::Unbound,
        state.saved(request).registered(false).config == request,
        state.save_commands(request) == seq![
            CommandView::Persist(request),
            CommandView::SyncAutostart(request.auto_start),
            CommandView::Unregister(state.config.shortcut),
            CommandView::Register(request.shortcut),
        ],
{
}

/// What a save persists is what the next start loads: the configuration
/// that a save leaves in the service comes back unchanged from the file.
pub proof fn law_saved_config_survives_restart(state: ServiceView, request: AppConfigView)
    requires
        request.valid(),
    ensures
        state.save_commands(request)[0] == CommandView::Persist(request),
        ServiceView::started(Some(request)).config == state.saved(request).config,
{
}

/// The configuration service, at rest: no operation of it waits for an
/// answer. Its configuration is valid, and a registration that it holds is
/// that of the configured shortcut.
#[derive(Debug)]
pub struct ConfigService {
    store: ConfigStore,
    shortcuts: ShortcutCoordinator,
}

impl View for ConfigService {
    type V = ServiceView;

    closed spec fn view(&self) -> ServiceView {
        ServiceView { config: self.store@, binding: self.shortcuts@ }
    }
}

/// A service whose start or save waits for the answer to the registration
/// of the configured shortcut.
///
/// The new configuration is in place and no registration is held. Until
/// [`PendingRegistration::finish`] gives the service back there is nothing
/// to read the configuration from or to save to: the state in between is
/// seen by no one.
#[derive(Debug)]
pub struct PendingRegistration {
    store: ConfigStore,
    shortcuts: ShortcutCoordinator,
    origin: Origin,
}

/// Mathematical value of a [`PendingRegistration`]: the state of the
/// service that waits, and the operation that it waits in.
pub struct PendingView {
    pub service: ServiceView,
    pub origin: Origin,
}

impl View for PendingRegistration {
    type V = PendingView;

    closed spec fn view(&self) -> PendingView {
        PendingView {
            service: ServiceView { config: self.store@, binding: self.shortcuts@ },
            origin: self.origin,
        }
    }
}

/// Outcome of a save.
#[derive(Debug)]
pub enum SaveStep {
    /// The shortcut stayed: the save is complete once the commands are
    /// carried out.
    Saved { service: ConfigService, commands: Vec<Command> },
    /// The shortcut changed: the commands end with the registration of the
    /// new one, and its answer goes to [`PendingRegistration::finish`].
    Registering { pending: PendingRegistration, commands: Vec<Command> },
}

impl SaveStep {
    /// The state that the save left.
    pub open spec fn state(self) -> ServiceView {
        match self {
            SaveStep::Saved { service, .. } => service@,
            SaveStep::Registering { pending, .. } => pending@.service,
        }
    }

    /// The commands of the save.
    pub open spec fn commands(self) -> Seq<CommandView> {
        match self {
            SaveStep::Saved { commands, .. } => commands_view(commands@),
            SaveStep::Registering { commands, .. } => commands_view(commands@),
        }
    }
}

impl ConfigService {
    #[verifier::type_invariant]
    spec fn binds_configured_shortcut(self) -> bool {
        self.shortcuts@ is Bound ==> self.shortcuts@ == Binding::Bound(self.store@.shortcut)
    }

    /// Starts the service on what the persisted file held: `None` where the
    /// file was missing or could not be parsed.
    ///
    /// The caller carries the commands out and answers the registration,
    /// which is the last of them, with [`PendingRegistration::finish`].
    pub fn startup(persisted: Option<AppConfig>) -> (started: (PendingRegistration, Vec<Command>))
        ensures
            started.0@ == (PendingView {
                service: ServiceView::started(persisted_view(persisted)),
                origin: Origin::Startup,
            }),
            commands_view(started.1@) == ServiceView::startup_commands(persisted_view(persisted)),
    {
        let (store, write_back) = ConfigStore::load(persisted);
        let config: AppConfig = store.snapshot();
        let mut commands: Vec<Command> = Vec::new();
        match write_back {
            Some(initial) => {
                commands.push(Command::Persist(initial));
            },
            None => {},
        }
        commands.push(Command::Broadcast(config.clone()));
        commands.push(Command::SyncAutostart(config.auto_start));
        commands.push(Command::Register(config.shortcut));
        let shortcuts: ShortcutCoordinator = ShortcutCoordinator::new();
        (PendingRegistration { store, shortcuts, origin: Origin::Startup }, commands)
    }

    /// A copy of the live configuration.
    pub fn get_config(&self) -> (config: AppConfig)
        ensures
            config@ == self@.config,
            self@.consistent(),
    {
        proof {
            use_type_invariant(self);
        }
        self.store.snapshot()
    }

    /// Whether a hotkey registration is held.
    pub fn is_bound(&self) -> (bound: bool)
        ensures
            bound == (self@.binding is Bound),
    {
        self.shortcuts.is_bound()
    }

    /// Saves the configuration that the user interface asks for.
    ///
    /// The default index is pulled into the list of targets, the live
    /// configuration is replaced as a whole, and the commands that follow
    /// from it come back. Where the shortcut did not change, the coordinator
    /// is not asked and the save is complete with these commands. Where it
    /// changed, the coordinator is asked to rebind: the old binding is given
    /// up, the commands end with the registration of the new shortcut, and
    /// the service comes back only with the answer to it.
    pub fn save_config_command(
        self,
        shortcut: String,
        theme: String,
        auto_start: bool,
        ai_engines: Vec<AIEngine>,
        default_ai: Option<usize>,
    ) -> (step: SaveStep)
        ensures
            step.state() == self@.saved(
                requested_config(shortcut@, theme@, auto_start, engines_view(ai_engines@), default_ai),
            ),
            step.commands() == self@.save_commands(
                requested_config(shortcut@, theme@, auto_start, engines_view(ai_engines@), default_ai),
            ),
            step is Registering <==> self@.rebinds(
                requested_config(shortcut@, theme@, auto_start, engines_view(ai_engines@), default_ai),
            ),
            step matches SaveStep::Registering { pending, .. } ==> pending@.origin == Origin::Save,
            step.state().consistent(),
    {
        proof {
            use_type_invariant(&self);
        }
        let mut store: ConfigStore = self.store;
        let mut shortcuts: ShortcutCoordinator = self.shortcuts;
        let old_shortcut: String = store.snapshot().shortcut;
        let new_config: AppConfig = AppConfig::new(
            shortcut,
            theme,
            auto_start,
            ai_engines,
            default_ai,
        );
        let new_shortcut: String = new_config.shortcut.clone();
        let saved: AppConfig = store.replace(new_config);
        let mut commands: Vec<Command> = Vec::new();
        commands.push(Command::Persist(saved.clone()));
        commands.push(Command::SyncAutostart(saved.auto_start));
        if old_shortcut != new_shortcut {
            let _ = shortcuts.rebind(&new_shortcut);
            commands.push(Command::Unregister(old_shortcut));
            commands.push(Command::Register(new_shortcut));
            SaveStep::Registering {
                pending: PendingRegistration { store, shortcuts, origin: Origin::Save },
                commands,
            }
        } else {
            commands.push(Command::Broadcast(saved));
            SaveStep::Saved { service: ConfigService { store, shortcuts }, commands }
        }
    }

    /// Decides what a press of the hotkey brings up, on a snapshot of the
    /// live configuration.
    pub fn hotkey_fired(&self, main_exists: bool, settings_exists: bool) -> (step: HotkeyStep)
        ensures
            step.surface == surface_for(self@.config.ai_engines.len()),
            step.commands@ == hotkey_commands(
                self@.config.ai_engines.len(),
                main_exists,
                settings_exists,
            ),
    {
        let config: AppConfig = self.store.snapshot();
        on_hotkey(&config, main_exists, settings_exists)
    }
}

impl PendingRegistration {
    #[verifier::type_invariant]
    spec fn holds_no_registration(self) -> bool {
        self.shortcuts@ is Unbound
    }

    /// Takes the answer of the operating system to the registration and
    /// gives the service back.
    ///
    /// On success the service is bound to the configured shortcut, and after
    /// a save the saved configuration is pushed to the windows. On refusal
    /// the service is unbound, with the configuration in place and the old
    /// shortcut not registered again, and the refusal comes back: after a
    /// save as the error to show to the user, after a start for the log.
    pub fn finish(self, outcome: Result<(), String>) -> (finished: (
        ConfigService,
        Result<Vec<Command>, String>,
    ))
        ensures
            finished.0@ == self@.service.registered(outcome is Ok),
            finished.0@.consistent(),
            outcome is Ok ==> (finished.1 matches Ok(commands) && commands_view(commands@)
                == self@.service.follow_up(self@.origin)),
            outcome matches Err(reason) ==> (finished.1 matches Err(message) && message@
                == registration_error(reason@)),
    {
        proof {
            use_type_invariant(&self);
        }
        let store: ConfigStore = self.store;
        let mut shortcuts: ShortcutCoordinator = self.shortcuts;
        let config: AppConfig = store.snapshot();
        let result = match shortcuts.bind(config.shortcut.clone(), outcome) {
            Ok(()) => {
                let mut commands: Vec<Command> = Vec::new();
                match self.origin {
                    Origin::Startup => {},
                    Origin::Save => {
                        commands.push(Command::Broadcast(config));
                    },
                }
                Ok(commands)
            },
            Err(message) => Err(message),
        };
        (ConfigService { store, shortcuts }, result)
    }
}

} // verus!
