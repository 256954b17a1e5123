//! What the commands of the service do to the hotkey registrations that the
//! operating system holds for the process.
//!
//! Nothing here runs. The module follows the commands through a model of
//! the registrations and shows that the service never asks for a second
//! registration while one is held, and that it knows what is held.

use vstd::prelude::*;
use crate::config::AppConfigView;
use crate::service::{CommandView, ServiceView};
use crate::shortcut::Binding;

verus! {

/// The registrations held after one command, where a registration is
/// granted exactly if `granted` says so and an unregistration goes through.
pub open spec fn after_command(held: Set<Seq<char>>, command: CommandView, granted: bool) -> Set<
    Seq<char>,
> {
    match command {
        CommandView::Unregister(spec) => held.remove(spec),
        CommandView::Register(spec) => if granted {
            held.insert(spec)
        } else {
            held
        },
        _ => held,
    }
}

/// The registrations held after the first `count` of `commands`.
pub open spec fn after_commands(
    held: Set<Seq<char>>,
    commands: Seq<CommandView>,
    granted: bool,
    count: nat,
) -> Set<Seq<char>>
    decreases count,
{
    if count == 0 || count > commands.len() {
        held
    } else {
        after_command(
            after_commands(held, commands, granted, (count - 1) as nat),
            commands[count - 1],
            granted,
        )
    }
}

/// No two registrations are held.
pub open spec fn at_most_one(held: Set<Seq<char>>) -> bool {
    forall|a: Seq<char>, b: Seq<char>| held.contains(a) && held.contains(b) ==> a == b
}

/// What is held is what `binding` says: nothing, or the one bound spec.
pub open spec fn agrees(held: Set<Seq<char>>, binding: Binding) -> bool {
    forall|spec: Seq<char>| held.contains(spec) <==> binding == Binding::Bound(spec)
}

/// A start from no registration never holds two, and ends with what the
/// service believes once the registration is answered.
pub proof fn law_start_holds_one_registration(
    persisted: Option<AppConfigView>,
    granted: bool,
    count: nat,
)
    requires
        count <= ServiceView::startup_commands(persisted).len(),
    ensures
        at_most_one(
            after_commands(Set::empty(), ServiceView::startup_commands(persisted), granted, count),
        ),
        agrees(
            after_commands(
                Set::empty(),
                ServiceView::startup_commands(persisted),
                granted,
                ServiceView::startup_commands(persisted).len(),
            ),
            ServiceView::started(persisted).registered(granted).binding,
        ),
{
    reveal_with_fuel(after_commands, 5);
}

/// A save never holds two registrations at any point of its commands: the
/// old shortcut is unregistered before the new one is registered. Once the
/// registration is answered, what is held is what the service believes.
pub proof fn law_save_holds_one_registration(
    state: ServiceView,
    request: AppConfigView,
    held: Set<Seq<char>>,
    granted: bool,
    count: nat,
)
    requires
        state.consistent(),
        agrees(held, state.binding),
        count <= state.save_commands(request).len(),
    ensures
        at_most_one(after_commands(held, state.save_commands(request), granted, count)),
        agrees(
            after_commands(
                held,
                state.save_commands(request),
                granted,
                state.save_commands(request).len(),
            ),
            if state.rebinds(request) {
                state.saved(request).registered(granted).binding
            } else {
                state.saved(request).binding
            },
        ),
{
    reveal_with_fuel(after_commands, 5);
}

} // verus!
