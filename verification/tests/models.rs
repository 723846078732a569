use sink::http::{handle_command, next_request, request_text, Commands, Server, ServerErrors, ServerEvents, ServerState};
use sink::fnsink::FnSink;
use sink::logging::{Data, Level, LoggingEvents};
use sink::net::{header_terminated, CommandKind, Component, EventKind, Refusal, State};
use sink::runtimes::concatview;
use sink::runtimes::eventstore;
use sink::runtimes::{parse_stdin, ElmModel, ElmModelRefCell, Model};
use sink::sink::Initializable;
use sink::stdio::StdinEvents;
use sink::isink::ISink;
use sink::system::{ISystem, IdentitySystem};

#[test]
fn make_simple_system() {
    let i = IdentitySystem::new();
    println!("Identity: {:?}", i);
    let handle = i.start(());
    let result = handle.system.handle(10);
    println!("Result: {:?}", result);
    assert_eq!(10, result);
    handle.shutdown();
}

#[test]
fn parse_stdin_projects_lines_by_length() {
    assert_eq!(None, parse_stdin(StdinEvents::Waiting));
    assert_eq!(None, parse_stdin(StdinEvents::LineReceived(10, "0123456789".to_owned())));
    assert_eq!(None, parse_stdin(StdinEvents::LineReceived(0, String::new())));
    assert_eq!(
        Some(concatview::Events::Bar("barz".to_owned())),
        parse_stdin(StdinEvents::LineReceived(4, "barz".to_owned()))
    );
    assert_eq!(
        Some(concatview::Events::Foo("fiz".to_owned())),
        parse_stdin(StdinEvents::LineReceived(3, "fiz".to_owned()))
    );
    assert_eq!(
        Some(concatview::Events::Bar("é".to_owned())),
        parse_stdin(StdinEvents::LineReceived(1, "é".to_owned()))
    );
}

#[test]
fn concatview_appends_each_rendered_event() {
    let mut model = concatview::Model::default();
    assert_eq!("", model.value());
    model.update(concatview::Events::Foo("fiz".to_owned()));
    assert_eq!("-Foo(\"fiz\")", model.value());
    model.update(concatview::Events::Bar("a\"b".to_owned()));
    assert_eq!("-Foo(\"fiz\")-Bar(\"a\\\"b\")", model.value());
}

#[test]
fn eventstore_keeps_events_in_order() {
    let mut store = eventstore::Model::default();
    store.update(3u8);
    store.update(1u8);
    assert_eq!(&[3u8, 1u8][..], store.events());
}

#[test]
fn elm_cell_updates_the_model_it_holds() {
    let mut cell = ElmModelRefCell::<Model>::default();
    cell.send(StdinEvents::Initialized);
    cell.send(StdinEvents::LineReceived(2, "hi".to_owned()));
    assert_eq!(
        &[StdinEvents::Initialized, StdinEvents::LineReceived(2, "hi".to_owned())][..],
        cell.model().eventstore().events()
    );
}

#[test]
fn logging_event_records_carry_level_and_data() {
    let data = Data::full("t".to_owned(), "v".to_owned(), "m".to_owned(), "f.rs".to_owned(), 7);
    let event = LoggingEvents::Warning(data);
    let (level, data) = event.record();
    assert_eq!(Level::Warn, level);
    assert_eq!("t", data.target());
    assert_eq!("v", data.value());
    assert_eq!(Some("m"), data.module());
    assert_eq!(Some("f.rs"), data.file());
    assert_eq!(Some(7), data.line());
    let plain = Data::new("t".to_owned(), "w".to_owned());
    assert_eq!(None, plain.file());
    assert_eq!(None, plain.line());
    assert_eq!(Level::Trace, LoggingEvents::Trace(plain).record().0);
}

#[test]
fn listener_admits_binding_only_while_unbound() {
    let mut listener = Component::default();
    assert!(listener.blocking());
    assert_eq!(Ok(()), listener.check_command(CommandKind::BindAddresses, None));
    assert_eq!(Err(Refusal::SocketNotBound), listener.check_command(CommandKind::Accept, None));
    assert_eq!(Err(Refusal::SocketNotBound), listener.check_command(CommandKind::SetTtl(3), Some("reset".to_owned())));
    listener.update(EventKind::SocketBound);
    assert_eq!(Err(Refusal::SocketAlreadyBound), listener.check_command(CommandKind::BindAddresses, None));
    assert_eq!(Ok(()), listener.check_command(CommandKind::CloneListener, None));
    assert_eq!(
        Err(Refusal::SocketError("connection reset".to_owned())),
        listener.check_command(CommandKind::Accept, Some("connection reset".to_owned()))
    );
    listener.update(EventKind::NonBlockingSet(false));
    listener.update(EventKind::TtlSet(64));
    assert!(!listener.blocking());
    assert_eq!(Some(64), listener.ttl());
    let restored = Component::init(State { blocking: false, ttl: None });
    assert!(restored.bound());
    assert_eq!(Ok(()), restored.check_command(CommandKind::Accept, None));
}

#[test]
fn request_head_ends_on_an_empty_line() {
    assert!(header_terminated(2, b"GET / HTTP/1.1\r\n\r\n"));
    assert!(!header_terminated(16, b"GET / HTTP/1.1\r\n"));
    assert!(!header_terminated(2, b"ab"));
}

#[test]
fn server_counts_requests_and_answers_values() {
    let tx = FnSink::new(|event: ServerEvents<Commands>| match event {
        ServerEvents::CommandReceived(Commands::SetValue(v)) if v != 2 => Ok(v * 100),
        _ => Err(()),
    });
    let mut state = ServerState::new();
    assert_eq!(Some("100".to_owned()), Server::<(), _>::next_response(&mut state, &tx));
    assert_eq!(None, Server::<(), _>::next_response(&mut state, &tx));
    assert_eq!(Some("300".to_owned()), Server::<(), _>::next_response(&mut state, &tx));
    assert_eq!(3, state.count());
    assert_eq!(&[ServerErrors::CommandHandler][..], state.errors());
    state.record(ServerErrors::IoError("reset".to_owned()));
    assert_eq!(2, state.errors().len());
}

#[test]
fn request_text_renders_index_and_result() {
    assert_eq!("Request Index: [5] with result [Ok(5)]", request_text(5, handle_command(Commands::SetValue(5))));
    assert_eq!("Request Index: [12] with result [Err(())]", request_text(12, Err(())));
}

#[test]
fn counting_server_numbers_its_requests() {
    let mut index = 0u32;
    let handler = FnSink::new(handle_command);
    assert_eq!("Request Index: [1] with result [Ok(1)]", next_request(&mut index, &handler));
    assert_eq!("Request Index: [2] with result [Ok(2)]", next_request(&mut index, &handler));
    assert_eq!(2, index);
    let refusing = FnSink::new(|command: Commands| match command {
        Commands::SetValue(v) if v % 2 == 1 => Err(()),
        Commands::SetValue(v) => Ok(v * 10),
    });
    assert_eq!("Request Index: [3] with result [Err(())]", next_request(&mut index, &refusing));
    assert_eq!("Request Index: [4] with result [Ok(40)]", next_request(&mut index, &refusing));
}
