//! Keeping the autostart registration of the operating system in line with
//! the configured flag.

use vstd::prelude::*;

verus! {

/// Name under which the program is registered for autostart.
pub const AUTOSTART_APP_NAME: &'static str = "AIBar";

/// What has to be done to the autostart registration.
#[derive(Debug, Clone, Copy, PartialEq, Eq)]
pub enum AutostartAction {
    /// Register the program to start with the session.
    Enable,
    /// Remove that registration.
    Disable,
    /// The registration is as wanted already.
    Keep,
}

/// The action that brings a registration in state `enabled_now` to the state
/// `enable`. A state that could not be found out (`None`) counts as not
/// enabled.
pub open spec fn autostart_action(enable: bool, enabled_now: Option<bool>) -> AutostartAction {
    let registered: bool = enabled_now == Some(true);
    if enable == registered {
        AutostartAction::Keep
    } else if enable {
        AutostartAction::Enable
    } else {
        AutostartAction::Disable
    }
}

/// Whether the program is registered once `action` has been carried out on
/// a registration in state `enabled_now`.
pub open spec fn after_action(enabled_now: Option<bool>, action: AutostartAction) -> bool {
    match action {
        AutostartAction::Enable => true,
        AutostartAction::Disable => false,
        AutostartAction::Keep => enabled_now == Some(true),
    }
}

/// Carrying out the action that was decided leaves the registration as
/// wanted, and a registration that is as wanted is left alone, so that
/// deciding a second time asks for nothing.
pub proof fn law_autostart_settles(enable: bool, enabled_now: Option<bool>)
    ensures
        after_action(enabled_now, autostart_action(enable, enabled_now)) == enable,
        autostart_action(enable, Some(enable)) == AutostartAction::Keep,
        autostart_action(
            enable,
            Some(after_action(enabled_now, autostart_action(enable, enabled_now))),
        ) == AutostartAction::Keep,
{
}

/// Decides how to bring the autostart registration in line with `enable`,
/// given what the operating system says of it now.
pub fn manage_autostart(enable: bool, enabled_now: Option<bool>) -> (action: AutostartAction)
    ensures
        action == autostart_action(enable, enabled_now),
{
    let registered: bool = match enabled_now {
        Some(state) => state,
        None => false,
    };
    if enable {
        if !registered {
            AutostartAction::Enable
        } else {
            AutostartAction::Keep
        }
    } else {
        if registered {
            AutostartAction::Disable
        } else {
            AutostartAction::Keep
        }
    }
}

} // verus!
