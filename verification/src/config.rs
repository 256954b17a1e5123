//! The persisted configuration value and the rules that keep its
//! default-target index inside the list of launch targets.

use vstd::prelude::*;
use vstd::math::min;

verus! {

/// Name of the persisted file inside the application's data directory.
pub const CONFIG_FILE_NAME: &'static str = "config.json";

/// One quick-launch entry. Its identity is its position in the list.
#[derive(Debug, PartialEq, Eq)]
pub struct AIEngine {
    pub name: String,
    pub url: String,
    pub logo: String,
}

/// Mathematical value of an [`AIEngine`].
pub struct AIEngineView {
    pub name: Seq<char>,
    pub url: Seq<char>,
    pub logo: Seq<char>,
}

impl View for AIEngine {
    type V = AIEngineView;

    open spec fn view(&self) -> AIEngineView {
        AIEngineView { name: self.name@, url: self.url@, logo: self.logo@ }
    }
}

impl Clone for AIEngine {
    fn clone(&self) -> (copy: Self)
        ensures
            copy@ == self@,
    {
        AIEngine { name: self.name.clone(), url: self.url.clone(), logo: self.logo.clone() }
    }
}

/// The launch targets of a list, each by its value, in order.
pub open spec fn engines_view(engines: Seq<AIEngine>) -> Seq<AIEngineView> {
    engines.map_values(|engine: AIEngine| engine@)
}

/// The single configuration value of the launcher.
#[derive(Debug, PartialEq, Eq)]
pub struct AppConfig {
    /// Global hotkey in the accelerator grammar of the operating system.
    pub shortcut: String,
    /// Ordered launch targets.
    pub ai_engines: Vec<AIEngine>,
    /// Position of the default launch target in `ai_engines`.
    pub default_ai: usize,
    pub theme: String,
    pub auto_start: bool,
}

/// Mathematical value of an [`AppConfig`].
pub struct AppConfigView {
    pub shortcut: Seq<char>,
    pub ai_engines: Seq<AIEngineView>,
    pub default_ai: nat,
    pub theme: Seq<char>,
    pub auto_start: bool,
}

impl AppConfigView {
    /// The configuration of a first run: `Alt+Space`, no targets, dark theme,
    /// no autostart.
    pub open spec fn initial() -> AppConfigView {
        AppConfigView {
            shortcut: "Alt+Space"@,
            ai_engines: Seq::empty(),
            default_ai: 0,
            theme: "dark"@,
            auto_start: false,
        }
    }

    /// The default index names a target, or is 0 where there is none.
    pub open spec fn valid(self) -> bool {
        if self.ai_engines.len() == 0 {
            self.default_ai == 0
        } else {
            self.default_ai < self.ai_engines.len()
        }
    }

    /// The same configuration with another default index.
    pub open spec fn with_default_ai(self, index: nat) -> AppConfigView {
        AppConfigView { default_ai: index, ..self }
    }

    /// What a persisted configuration is taken for: an index that names no
    /// target falls back to 0, everything else is kept.
    pub open spec fn repaired(self) -> AppConfigView {
        self.with_default_ai(repaired_default_ai(self.ai_engines.len(), self.default_ai))
    }
}

/// Default index taken from persisted data: kept where it names one of
/// `count` targets, else 0.
pub open spec fn repaired_default_ai(count: nat, index: nat) -> nat {
    if index < count {
        index
    } else {
        0
    }
}

/// Default index taken from a request: the requested position, 0 where none
/// is given, but no further than the last of `count` targets; 0 where there
/// is no target.
pub open spec fn clamped_default_ai(count: nat, requested: Option<usize>) -> nat {
    if count == 0 {
        0
    } else {
        min(requested.unwrap_or(0) as int, count - 1) as nat
    }
}

/// The configuration that a request asks for: its fields as given, the
/// default index pulled into the list of targets.
pub open spec fn requested_config(
    shortcut: Seq<char>,
    theme: Seq<char>,
    auto_start: bool,
    ai_engines: Seq<AIEngineView>,
    default_ai: Option<usize>,
) -> AppConfigView {
    AppConfigView {
        shortcut,
        ai_engines,
        default_ai: clamped_default_ai(ai_engines.len(), default_ai),
        theme,
        auto_start,
    }
}

impl View for AppConfig {
    type V = AppConfigView;

    open spec fn view(&self) -> AppConfigView {
        AppConfigView {
            shortcut: self.shortcut@,
            ai_engines: engines_view(self.ai_engines@),
            default_ai: self.default_ai as nat,
            theme: self.theme@,
            auto_start: self.auto_start,
        }
    }
}

/// Autostart flag of a persisted configuration that does not mention one.
pub fn default_auto_start() -> (flag: bool)
    ensures
        !flag,
{
    false
}

/// Default index of a persisted configuration that does not mention one.
pub fn default_ai_index() -> (index: usize)
    ensures
        index == 0,
{
    0
}

/// Deep copy of a list of launch targets.
fn clone_engines(engines: &Vec<AIEngine>) -> (copy: Vec<AIEngine>)
    ensures
        engines_view(copy@) == engines_view(engines@),
{
    let mut copy: Vec<AIEngine> = Vec::new();
    let mut i: usize = 0;
    while i < engines.len()
        invariant
            i <= engines.len(),
            copy@.len() == i,
            forall|j: int| 0 <= j < i ==> copy@[j]@ == engines@[j]@,
        decreases engines.len() - i,
    {
        copy.push(engines[i].clone());
        i += 1;
    }
    copy
}

/// Index that a request's default target is stored under.
pub fn validated_default_ai(count: usize, requested: Option<usize>) -> (index: usize)
    ensures
        index == clamped_default_ai(count as nat, requested),
{
    if count == 0 {
        0
    } else {
        let wanted: usize = match requested {
            Some(index) => index,
            None => default_ai_index(),
        };
        if wanted < count {
            wanted
        } else {
            count - 1
        }
    }
}

impl Default for AppConfig {
    fn default() -> (config: Self)
        ensures
            config@ == AppConfigView::initial(),
    {
        let config = AppConfig {
            shortcut: "Alt+Space".to_string(),
            ai_engines: Vec::new(),
            default_ai: default_ai_index(),
            theme: "dark".to_string(),
            auto_start: default_auto_start(),
        };
        assert(config@.ai_engines =~= Seq::empty());
        config
    }
}

impl Clone for AppConfig {
    fn clone(&self) -> (copy: Self)
        ensures
            copy@ == self@,
    {
        AppConfig {
            shortcut: self.shortcut.clone(),
            ai_engines: clone_engines(&self.ai_engines),
            default_ai: self.default_ai,
            theme: self.theme.clone(),
            auto_start: self.auto_start,
        }
    }
}

impl AppConfig {
    /// Builds the configuration that a request asks for, with the default
    /// index pulled into the list.
    pub fn new(
        shortcut: String,
        theme: String,
        auto_start: bool,
        ai_engines: Vec<AIEngine>,
        default_ai: Option<usize>,
    ) -> (config: AppConfig)
        ensures
            config@ == requested_config(
                shortcut@,
                theme@,
                auto_start,
                engines_view(ai_engines@),
                default_ai,
            ),
            config@.valid(),
    {
        let index: usize = validated_default_ai(ai_engines.len(), default_ai);
        AppConfig { shortcut, ai_engines, default_ai: index, theme, auto_start }
    }

    /// Whether the default index names a target, or is 0 where there is none.
    pub fn is_valid(&self) -> (ok: bool)
        ensures
            ok == self@.valid(),
    {
        if self.ai_engines.len() == 0 {
            self.default_ai == 0
        } else {
            self.default_ai < self.ai_engines.len()
        }
    }

    /// Takes a configuration read from persisted data as far as it can be
    /// trusted: an index outside the list becomes 0.
    pub fn repaired(self) -> (config: AppConfig)
        ensures
            config@ == self@.repaired(),
            config@.valid(),
    {
        if self.default_ai < self.ai_engines.len() {
            self
        } else {
            AppConfig { default_ai: 0, ..self }
        }
    }
}

} // verus!
