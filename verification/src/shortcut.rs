//! The binding between one hotkey spec and one registration with the
//! operating system.
//!
//! The coordinator never talks to the operating system itself. It decides
//! what has to be unregistered and registered, and is told how the
//! registration went.

use vstd::prelude::*;
use vstd::string::StringExecFns;

verus! {

/// What the coordinator holds: no registration, or exactly one, keyed by its
/// spec.
pub enum Binding {
    Unbound,
    Bound(Seq<char>),
}

impl Binding {
    /// The binding after the decision to rebind to `new_spec`: kept where it
    /// is already bound to that spec, given up otherwise.
    pub open spec fn released_for(self, new_spec: Seq<char>) -> Binding {
        if self == Binding::Bound(new_spec) {
            self
        } else {
            Binding::Unbound
        }
    }

    /// The binding after an attempt to register `spec` from the unbound
    /// state.
    pub open spec fn after_attempt(spec: Seq<char>, registered: bool) -> Binding {
        if registered {
            Binding::Bound(spec)
        } else {
            Binding::Unbound
        }
    }

    /// The spec whose registration is held, if any.
    pub open spec fn held(self) -> Option<Seq<char>> {
        match self {
            Binding::Unbound => None,
            Binding::Bound(spec) => Some(spec),
        }
    }
}

/// A rebinding whose registration is refused ends unbound: the old spec is
/// given up before the new one is tried, and is not bound again.
pub proof fn law_refused_rebind_ends_unbound(old_spec: Seq<char>, new_spec: Seq<char>)
    requires
        old_spec != new_spec,
    ensures
        Binding::Bound(old_spec).released_for(new_spec) == Binding::Unbound,
        Binding::after_attempt(new_spec, false) == Binding::Unbound,
        Binding::after_attempt(new_spec, false) != Binding::Bound(old_spec),
{
}

/// Rebinding to the spec that is bound already changes nothing.
pub proof fn law_rebind_to_same_spec_keeps_binding(spec: Seq<char>)
    ensures
        Binding::Bound(spec).released_for(spec) == Binding::Bound(spec),
{
}

/// Text of the error that a refused registration is reported with.
pub open spec fn registration_error(reason: Seq<char>) -> Seq<char> {
    "Failed to register shortcut: "@ + reason
}

/// Builds the error text for a registration that the operating system
/// refused for `reason`.
pub fn registration_error_message(reason: &String) -> (message: String)
    ensures
        message@ == registration_error(reason@),
{
    let mut message: String = "Failed to register shortcut: ".to_string();
    message.append(reason.as_str());
    message
}

/// What a rebinding takes.
#[derive(Debug, PartialEq, Eq)]
pub enum RebindStep {
    /// The requested spec is the one already bound: nothing to do.
    Unchanged,
    /// The old binding is given up. The caller unregisters `unregister`,
    /// where there is one, then registers the new spec and reports the
    /// outcome to [`ShortcutCoordinator::bind`].
    Replace { unregister: Option<String> },
}

/// Owner of the hotkey binding.
#[derive(Debug)]
pub struct ShortcutCoordinator {
    bound: Option<String>,
}

impl View for ShortcutCoordinator {
    type V = Binding;

    closed spec fn view(&self) -> Binding {
        match self.bound {
            None => Binding::Unbound,
            Some(spec) => Binding::Bound(spec@),
        }
    }
}

impl ShortcutCoordinator {
    /// A coordinator that holds no registration.
    pub fn new() -> (coordinator: ShortcutCoordinator)
        ensures
            coordinator@ == Binding::Unbound,
    {
        ShortcutCoordinator { bound: None }
    }

    /// Whether a registration is held.
    pub fn is_bound(&self) -> (bound: bool)
        ensures
            bound == (self@ is Bound),
    {
        self.bound.is_some()
    }

    /// The spec whose registration is held, if any.
    pub fn bound_spec(&self) -> (spec: Option<String>)
        ensures
            match spec {
                Some(text) => self@.held() == Some(text@),
                None => self@.held() is None,
            },
    {
        match &self.bound {
            Some(spec) => Some(spec.clone()),
            None => None,
        }
    }

    /// Records an attempt to register `spec`, made while nothing was bound.
    ///
    /// `outcome` is the answer of the operating system. On success the
    /// coordinator is bound to `spec`. On refusal it stays unbound and the
    /// refusal comes back as the error to show to the user.
    pub fn bind(&mut self, spec: String, outcome: Result<(), String>) -> (result: Result<
        (),
        String,
    >)
        requires
            old(self)@ is Unbound,
        ensures
            final(self)@ == Binding::after_attempt(spec@, outcome is Ok),
            outcome is Ok ==> result is Ok,
            outcome matches Err(reason) ==> (result matches Err(message) && message@
                == registration_error(reason@)),
    {
        match outcome {
            Ok(()) => {
                self.bound = Some(spec);
                Ok(())
            },
            Err(reason) => Err(registration_error_message(&reason)),
        }
    }

    /// Decides what rebinding to `new_spec` takes, and gives the old binding
    /// up where it has to change.
    ///
    /// Bound to `new_spec` already, nothing happens. Otherwise the
    /// coordinator ends unbound, whatever becomes of the new registration:
    /// the old spec, if one was bound, is handed out to be unregistered
    /// before the new one is registered, and is not bound again.
    pub fn rebind(&mut self, new_spec: &String) -> (step: RebindStep)
        ensures
            final(self)@ == old(self)@.released_for(new_spec@),
            old(self)@ == Binding::Bound(new_spec@) ==> step is Unchanged,
            old(self)@ != Binding::Bound(new_spec@) ==> (step matches RebindStep::Replace {
                unregister,
            } && match unregister {
                Some(text) => old(self)@.held() == Some(text@),
                None => old(self)@.held() is None,
            }),
    {
        let unchanged: bool = match &self.bound {
            Some(spec) => *spec == *new_spec,
            None => false,
        };
        if unchanged {
            RebindStep::Unchanged
        } else {
            let unregister: Option<String> = self.bound.take();
            RebindStep::Replace { unregister }
        }
    }
}

} // verus!
