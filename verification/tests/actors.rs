use std::cell::RefCell;

use sink::component::{deliver, Actor, ActorState, Emission, System, SystemDef};
use sink::fnsink::FnSink;
use sink::logging::{Level, LoggingEvents};
use sink::product::{Aggregate, Commands, Component, Errors, Events, RegistrationData, State};
use sink::sink::{Dispatcher, Initializable, Sink};
use sink::stdio::{console, linereader, mocklinereader, StdinCommands, StdinErrors, StdinEvents};

#[test]
fn init_singleton_actor() {
    let mut actor = Component::default();
    let result = actor.handle(Commands::Register(RegistrationData { name: "foo" }));
    assert_eq!(Ok(Events::Registered(RegistrationData { name: "foo" })), result);
    let result = result.and_then(|event| {
        actor.apply_event(event);
        let result = actor.handle(Commands::Disable);
        assert_eq!(Ok(Events::Disabled), result);
        result
    }).and_then(|event| {
        actor.apply_event(event);
        let result = actor.handle(Commands::ReEnable);
        assert_eq!(Ok(Events::ReEnabled), result);
        result
    });
    assert_eq!(Ok(Events::ReEnabled), result);
    assert!(!actor.enabled());
    assert_eq!("foo", actor.name());
}

#[test]
fn unregistered_product_refuses_everything_but_register() {
    let actor = Component::default();
    assert_eq!(Err(Errors::NotInitialized), actor.handle(Commands::Disable));
    assert_eq!(Err(Errors::NotInitialized), actor.handle(Commands::ReEnable));
}

#[test]
fn repeated_commands_are_refused() {
    let mut actor = Component::default();
    let event = actor.handle(Commands::Register(RegistrationData { name: "bar" })).unwrap();
    actor.apply_event(event);
    assert!(actor.enabled());
    assert_eq!(
        Err(Errors::AlreadyRegistered),
        actor.handle(Commands::Register(RegistrationData { name: "bar" }))
    );
    assert_eq!(Err(Errors::AlreadyEnabled), actor.handle(Commands::ReEnable));
    let event = actor.handle(Commands::Disable).unwrap();
    actor.apply_event(event);
    assert_eq!(Err(Errors::AlreadyDisabled), actor.handle(Commands::Disable));
}

#[test]
fn product_initialized_from_state() {
    let actor = Component::init(State { enabled: false, name: "baz" });
    assert!(!actor.enabled());
    assert_eq!("baz", actor.name());
    assert_eq!(Ok(Events::ReEnabled), actor.handle(Commands::ReEnable));
}

fn recorder<T: Clone + 'static>(store: &RefCell<Vec<T>>) -> FnSink<impl Fn(T) + '_, T, ()> {
    FnSink::new(move |item: T| store.borrow_mut().push(item))
}

#[test]
fn console_asks_to_initialize_then_await_twice() {
    let config = console::Config::new();
    assert_eq!(
        vec![StdinCommands::Initialize, StdinCommands::Await, StdinCommands::Await],
        config.startup_commands()
    );
    let sent = RefCell::new(Vec::new());
    let units = RefCell::new(Vec::new());
    let mut state = <console::State as ActorState<_>>::from(&config);
    config.handle(&mut state, (), &recorder(&sent), &recorder(&units));
    assert_eq!(
        vec![StdinCommands::Initialize, StdinCommands::Await, StdinCommands::Await],
        *sent.borrow()
    );
    assert!(units.borrow().is_empty());
}

#[test]
fn mock_reader_serves_seeded_lines() {
    let config = mocklinereader::Config::new(vec!["product/disable ".to_owned()]);
    assert_eq!(10, config.delay_ms());
    let events = RefCell::new(Vec::new());
    let errors = RefCell::new(Vec::new());
    let mut state = <mocklinereader::State as ActorState<_>>::from(&config);
    assert_eq!(None, config.handle(&mut state, StdinCommands::Await, &recorder(&events), &recorder(&errors)));
    assert_eq!(None, config.handle(&mut state, StdinCommands::Initialize, &recorder(&events), &recorder(&errors)));
    assert_eq!(None, config.handle(&mut state, StdinCommands::Initialize, &recorder(&events), &recorder(&errors)));
    assert_eq!(Some(10), config.handle(&mut state, StdinCommands::Await, &recorder(&events), &recorder(&errors)));
    assert!(config.resume(&mut state, &recorder(&events)));
    assert_eq!(
        vec![
            StdinEvents::Initialized,
            StdinEvents::Waiting,
            StdinEvents::LineReceived(4, "foo\n".to_owned()),
        ],
        *events.borrow()
    );
    assert_eq!(vec![StdinErrors::NotInitialized, StdinErrors::AlreadyInitialized], *errors.borrow());
    assert_eq!(Some("bar\n".to_owned()), state.next());
    assert_eq!(Some("baz\n".to_owned()), state.next());
    assert_eq!(Some("product/disable \n".to_owned()), state.next());
    assert_eq!(None, state.next());
    assert!(!config.resume(&mut state, &recorder(&events)));
}

#[test]
fn line_reader_asks_for_a_line_only_once_initialized() {
    let config = linereader::Config::new();
    let events = RefCell::new(Vec::new());
    let errors = RefCell::new(Vec::new());
    let mut state = <linereader::State as ActorState<_>>::from(&config);
    assert!(!config.handle(&mut state, StdinCommands::Await, &recorder(&events), &recorder(&errors)));
    assert!(!config.handle(&mut state, StdinCommands::Initialize, &recorder(&events), &recorder(&errors)));
    assert!(state.initialized());
    assert!(config.handle(&mut state, StdinCommands::Await, &recorder(&events), &recorder(&errors)));
    config.deliver_read(Ok("héllo\n".to_owned()), &recorder(&events), &recorder(&errors));
    config.deliver_read(Err("broken pipe".to_owned()), &recorder(&events), &recorder(&errors));
    assert_eq!(
        vec![
            StdinEvents::Initialized,
            StdinEvents::Waiting,
            StdinEvents::LineReceived(7, "héllo\n".to_owned()),
        ],
        *events.borrow()
    );
    assert_eq!(
        vec![StdinErrors::NotInitialized, StdinErrors::IoError("broken pipe".to_owned())],
        *errors.borrow()
    );
}

#[test]
fn deliver_keeps_the_order_of_emissions() {
    let events = RefCell::new(Vec::new());
    let errors = RefCell::new(Vec::new());
    deliver(
        vec![Emission::Event(1u32), Emission::Error("x"), Emission::Event(2u32)],
        &recorder(&events),
        &recorder(&errors),
    );
    assert_eq!(vec![1, 2], *events.borrow());
    assert_eq!(vec!["x"], *errors.borrow());
}

struct Context {
    logs: RefCell<Vec<(Level, String)>>,
    events: RefCell<Vec<u32>>,
    errors: RefCell<Vec<String>>,
}

impl Dispatcher<LoggingEvents> for Context {
    fn dispatch(&self, input: LoggingEvents) {
        let (level, data) = input.record();
        self.logs.borrow_mut().push((level, data.value().to_owned()));
    }
}

impl Dispatcher<u32> for Context {
    fn dispatch(&self, input: u32) {
        self.events.borrow_mut().push(input);
    }
}

impl Dispatcher<String> for Context {
    fn dispatch(&self, input: String) {
        self.errors.borrow_mut().push(input);
    }
}

#[test]
fn system_dispatches_events_errors_and_logs() {
    let ctx = Context { logs: RefCell::new(Vec::new()), events: RefCell::new(Vec::new()), errors: RefCell::new(Vec::new()) };
    let inner = FnSink::new(|n: u32| if n % 2 == 0 { Ok(n / 2) } else { Err(format!("{} is odd", n)) });
    let system = System::new(&ctx, inner);
    system.send(8);
    system.send(3);
    assert_eq!(vec![4], *ctx.events.borrow());
    assert_eq!(vec!["3 is odd".to_owned()], *ctx.errors.borrow());
    assert_eq!(
        vec![
            (Level::Trace, "Command: 8".to_owned()),
            (Level::Warn, "Event: 4".to_owned()),
            (Level::Trace, "Command: 3".to_owned()),
            (Level::Error, "Error: \"3 is odd\"".to_owned()),
        ],
        *ctx.logs.borrow()
    );
}

impl<'a> Dispatcher<LoggingEvents> for &'a Context {
    fn dispatch(&self, input: LoggingEvents) {
        (*self).dispatch(input)
    }
}

impl<'a> Dispatcher<u32> for &'a Context {
    fn dispatch(&self, input: u32) {
        Dispatcher::<u32>::dispatch(*self, input)
    }
}

impl<'a> Dispatcher<String> for &'a Context {
    fn dispatch(&self, input: String) {
        Dispatcher::<String>::dispatch(*self, input)
    }
}

#[derive(Default)]
struct Doubler {}

impl Sink for Doubler {
    type TInput = u32;
    type TResult = Result<u32, String>;

    fn send(&self, input: u32) -> Result<u32, String> {
        Ok(input * 2)
    }
}

#[test]
fn bound_system_starts_from_default() {
    let ctx = Context { logs: RefCell::new(Vec::new()), events: RefCell::new(Vec::new()), errors: RefCell::new(Vec::new()) };
    let system: System<&Context, Doubler> = <Doubler as SystemDef<&Context, Doubler>>::bind(&ctx);
    system.send(21);
    assert_eq!(vec![42], *ctx.events.borrow());
}
