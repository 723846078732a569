use vstd::prelude::*;

use crate::sink::Initializable;

verus! {

/// An aggregate decides on commands and evolves by the events it decided on.
///
/// `handle` never changes the aggregate: it answers a command with the event to apply or
/// with the reason for refusing it; `apply_event` then moves the aggregate forward.
pub trait Aggregate: Sized {
    type TCommands;
    type TEvents;
    type TErrors;

    /// What `handle` answers `command` with.
    spec fn outcome(&self, command: Self::TCommands) -> Result<Self::TEvents, Self::TErrors>;

    /// What `apply_event` makes of the aggregate.
    spec fn applied(&self, event: Self::TEvents) -> Self;

    fn handle(&self, command: Self::TCommands) -> (result: Result<Self::TEvents, Self::TErrors>)
        ensures
            result == self.outcome(command),
    ;

    fn apply_event(&mut self, event: Self::TEvents)
        ensures
            *final(self) == old(self).applied(event),
    ;
}

/// The data a product is registered with.
#[derive(Clone, Debug, PartialEq)]
pub struct RegistrationData<'a> {
    pub name: &'a str,
}

#[derive(Clone, Debug, PartialEq)]
pub enum Commands<'a> {
    Register(RegistrationData<'a>),
    Disable,
    ReEnable,
}

#[derive(Clone, Debug, PartialEq)]
pub enum Events<'a> {
    Registered(RegistrationData<'a>),
    Disabled,
    ReEnabled,
}

#[derive(Clone, Debug, PartialEq)]
pub enum Errors {
    AlreadyRegistered,
    AlreadyDisabled,
    AlreadyEnabled,
    NotInitialized,
}

/// A stored snapshot of a product.
#[derive(Clone, Debug, PartialEq)]
pub struct State<'a> {
    pub enabled: bool,
    pub name: &'a str,
}

/// A product: unregistered while its name is empty, then enabled or disabled.
#[derive(Clone, Debug, PartialEq)]
pub struct Component<'a> {
    enabled: bool,
    name: &'a str,
}

impl<'a> Component<'a> {
    pub closed spec fn is_enabled(&self) -> bool {
        self.enabled
    }

    pub closed spec fn name_view(&self) -> Seq<char> {
        self.name@
    }

    /// A product is registered once it carries a non-empty name.
    pub open spec fn is_registered(&self) -> bool {
        self.name_view().len() != 0
    }

    /// Whether the product is enabled.
    pub fn enabled(&self) -> (enabled: bool)
        ensures
            enabled == self.is_enabled(),
    {
        self.enabled
    }

    /// The product's name, empty until it is registered.
    pub fn name(&self) -> (name: &'a str)
        ensures
            name@ == self.name_view(),
    {
        self.name
    }
}

impl<'a> Default for Component<'a> {
    /// A disabled product with an empty name.
    fn default() -> (component: Self)
        ensures
            !component.is_enabled(),
            component.name_view().len() == 0,
    {
        proof {
            reveal_strlit("");
        }
        Component { enabled: false, name: "" }
    }
}

impl<'a> Initializable for Component<'a> {
    type TState = State<'a>;

    open spec fn state_applied(before: Self, state: State<'a>, after: Self) -> bool {
        after.is_enabled() == state.enabled && after.name_view() == state.name@
    }

    fn apply_state(&mut self, state: State<'a>) {
        self.enabled = state.enabled;
        self.name = state.name;
    }
}

impl<'a> Aggregate for Component<'a> {
    type TCommands = Commands<'a>;

    type TEvents = Events<'a>;

    type TErrors = Errors;

    /// An unregistered product accepts only `Register`; a registered one refuses it, and
    /// accepts `Disable` when enabled and `ReEnable` when disabled.
    open spec fn outcome(&self, command: Commands<'a>) -> Result<Events<'a>, Errors> {
        if !self.is_registered() {
            match command {
                Commands::Register(data) => Ok(Events::Registered(data)),
                _ => Err(Errors::NotInitialized),
            }
        } else {
            match command {
                Commands::Register(_) => Err(Errors::AlreadyRegistered),
                Commands::Disable => if self.is_enabled() {
                    Ok(Events::Disabled)
                } else {
                    Err(Errors::AlreadyDisabled)
                },
                Commands::ReEnable => if self.is_enabled() {
                    Err(Errors::AlreadyEnabled)
                } else {
                    Ok(Events::ReEnabled)
                },
            }
        }
    }

    /// `Registered` enables the product and names it; `Disabled` and `ReEnabled` set the flag.
    closed spec fn applied(&self, event: Events<'a>) -> Self {
        match event {
            Events::Registered(data) => Component { enabled: true, name: data.name },
            Events::Disabled => Component { enabled: false, name: self.name },
            Events::ReEnabled => Component { enabled: true, name: self.name },
        }
    }

    fn handle(&self, command: Commands<'a>) -> (result: Result<Events<'a>, Errors>) {
        if self.name.is_empty() {
            match command {
                Commands::Register(data) => Ok(Events::Registered(data)),
                _ => Err(Errors::NotInitialized),
            }
        } else {
            match command {
                Commands::Register(_) => Err(Errors::AlreadyRegistered),
                Commands::Disable => {
                    if self.enabled {
                        Ok(Events::Disabled)
                    } else {
                        Err(Errors::AlreadyDisabled)
                    }
                },
                Commands::ReEnable => {
                    if self.enabled {
                        Err(Errors::AlreadyEnabled)
                    } else {
                        Ok(Events::ReEnabled)
                    }
                },
            }
        }
    }

    fn apply_event(&mut self, event: Events<'a>) {
        match event {
            Events::Registered(data) => {
                self.enabled = true;
                self.name = data.name;
            },
            Events::Disabled => {
                self.enabled = false;
            },
            Events::ReEnabled => {
                self.enabled = true;
            },
        }
    }
}

/// What applying each event does to the product's flag and name.
pub proof fn lemma_applied<'a>(c: Component<'a>, event: Events<'a>)
    ensures
        match event {
            Events::Registered(data) => c.applied(event).is_enabled() && c.applied(
                event,
            ).name_view() == data.name@,
            Events::Disabled => !c.applied(event).is_enabled() && c.applied(event).name_view()
                == c.name_view(),
            Events::ReEnabled => c.applied(event).is_enabled() && c.applied(event).name_view()
                == c.name_view(),
        },
{
}

/// A command that succeeded is refused when it is repeated on the product it produced:
/// registering again answers `AlreadyRegistered`, disabling again `AlreadyDisabled`,
/// re-enabling again `AlreadyEnabled`. Registering under an empty name leaves the product
/// unregistered, so that one case is left out.
pub proof fn lemma_repeated_command_is_refused<'a>(c: Component<'a>, command: Commands<'a>)
    requires
        c.outcome(command) is Ok,
        command matches Commands::Register(data) ==> data.name@.len() != 0,
    ensures
        c.applied(c.outcome(command)->Ok_0).outcome(command) == match command {
            Commands::Register(_) => Err::<Events<'a>, Errors>(Errors::AlreadyRegistered),
            Commands::Disable => Err(Errors::AlreadyDisabled),
            Commands::ReEnable => Err(Errors::AlreadyEnabled),
        },
{
}

/// Disabling an enabled product and then re-enabling it gives back the same product.
pub proof fn lemma_disable_then_reenable_restores<'a>(c: Component<'a>)
    requires
        c.is_registered(),
        c.is_enabled(),
    ensures
        c.outcome(Commands::Disable) == Ok::<Events<'a>, Errors>(Events::Disabled),
        c.applied(Events::Disabled).outcome(Commands::ReEnable) == Ok::<Events<'a>, Errors>(
            Events::ReEnabled,
        ),
        c.applied(Events::Disabled).applied(Events::ReEnabled) == c,
{
}

/// An unregistered product refuses every command but `Register` with `NotInitialized`.
pub proof fn lemma_unregistered_refuses_all_but_register<'a>(c: Component<'a>, command: Commands<'a>)
    requires
        !c.is_registered(),
        !(command is Register),
    ensures
        c.outcome(command) == Err::<Events<'a>, Errors>(Errors::NotInitialized),
{
}

/// A registered product refuses every further registration with `AlreadyRegistered`,
/// whether it is enabled or disabled, and whatever name the new registration carries.
pub proof fn lemma_registered_refuses_register<'a>(c: Component<'a>, data: RegistrationData<'a>)
    requires
        c.is_registered(),
    ensures
        c.outcome(Commands::Register(data)) == Err::<Events<'a>, Errors>(Errors::AlreadyRegistered),
{
}

/// Once registered, a product keeps its name through every event but another
/// registration: disabling and re-enabling never rename it.
pub proof fn lemma_registered_name_is_kept<'a>(c: Component<'a>, command: Commands<'a>)
    requires
        c.is_registered(),
        c.outcome(command) is Ok,
    ensures
        c.applied(c.outcome(command)->Ok_0).name_view() == c.name_view(),
        c.applied(c.outcome(command)->Ok_0).is_registered(),
{
}

} // verus!
