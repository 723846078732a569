use std::cell::RefCell;

use sink::echosink::EchoSink;
use sink::fallible::ISink as FallibleSink;
use sink::fallible::sink::Sink;
use sink::fallible::sinkmap::{ISinkMap as FallibleSinkMap, SinkMap as FallibleMap};
use sink::fnsink::FnSink;
use sink::iasyncsink::{AsyncStatus, IAsyncContext, IAsyncSink, Immediate, IntoAsync};
use sink::isink::ISink;
use sink::sinkmap::{ISinkMap, SinkMap};
use sink::statefulsink::{IntoStatefulSink, StatefulSink};
use sink::vecsink::VecSink;

#[test]
fn should_return_the_value_passed() {
    let sink = EchoSink::new();
    assert_eq!(10, sink.handle(10));
}

#[test]
fn sinkmap_should_explicitly_construct_a_sinkmap() {
    let s = FnSink::new(|item| item);
    let sm = SinkMap::new(s, |item: &'static str| item.len());
    assert_eq!(0, sm.handle(""));
    assert_eq!(9, sm.handle("some text"));

    let s = Sink::<usize, usize, (), _>::new(|item| Ok(item));
    let sm = FallibleMap::new(s, |item: String| item.len());
    assert_eq!(Ok(0), sm.send("".to_owned()));
    assert_eq!(Ok(9), sm.send("some text".to_owned()));
}

#[test]
fn sinkmap_should_construct_a_sinkmap_through_the_map_function() {
    let s = FnSink::new(|item| item).map(|item: &'static str| item.len());
    assert_eq!(0, s.handle(""));
    assert_eq!(9, s.handle("some text"));

    let s = Sink::<usize, usize, (), _>::new(|item| Ok(item)).map(|item: String| item.len());
    assert_eq!(Ok(0), s.send("".to_owned()));
    assert_eq!(Ok(9), s.send("some text".to_owned()));
}

#[test]
fn should_send_single_item_to_sink() {
    let sink = Sink::<(), (), (), _>::new(|_item| Ok(()));
    sink.send(()).unwrap();
}

#[test]
fn should_send_multiple_items_to_sink() {
    let sink = Sink::<(), (), (), _>::new(|_item| Ok(()));
    sink.send(()).unwrap();
    sink.send(()).unwrap();
}

#[test]
fn fallible_sink_reports_the_handler_error() {
    let sink = Sink::<u32, u32, String, _>::new(|n| if n > 3 { Err(format!("{} too big", n)) } else { Ok(n * 2) });
    assert_eq!(Ok(6), sink.send(3));
    assert_eq!(Err("4 too big".to_owned()), sink.send(4));
}

#[test]
fn handle_single_item() {
    let s = StatefulSink::new(|_state: &(), _item| ());
    s.handle(());
}

#[test]
fn handle_multiple_items() {
    let s = StatefulSink::new(|_state: &(), _item| ());
    s.handle(());
    s.handle(());
}

#[test]
fn update_state_on_handle_given_mutable_type() {
    let initial = RefCell::new(10);
    let s = StatefulSink::with_state(&initial, |s, item| {
        let mut value = s.borrow_mut();
        *value += item;
        value.to_owned()
    });
    assert_eq!(20, s.handle(10));
    assert_eq!(40, s.handle(20));
}

#[test]
fn update_state_on_handle_given_defaulted_mutable_type() {
    let s = StatefulSink::new(|s: &RefCell<u32>, item| {
        let mut value = s.borrow_mut();
        *value += item;
        value.to_owned()
    });
    assert_eq!(10, s.handle(10));
    assert_eq!(30, s.handle(20));
}

#[test]
fn mutate_contained_state_after_into_sink() {
    let s = RefCell::<u32>::new(10).into_sink(|state, item| {
        let mut value = state.borrow_mut();
        *value += item;
        value.to_owned()
    });
    assert_eq!(20, s.handle(10));
    assert_eq!(40, s.handle(20));
}

#[test]
fn populate_vecsink_with_handled_message() {
    let mut sink = VecSink::new();
    sink.send(10).unwrap();
    sink.send(20).unwrap();
    assert_eq!(vec![10, 20], sink.data());
}

#[test]
fn return_data_index_as_result_handle() {
    let mut sink = VecSink::new();
    assert_eq!(0, sink.send(10).unwrap());
    assert_eq!(1, sink.send(20).unwrap());
}

#[test]
fn should_wrap_sink_with_async() {
    let s = FnSink::new(|_: ()| ());
    let a = s.into_async();
    let ctx = a.send(());
    assert!(matches!(ctx.poll(), AsyncStatus::Ready(())));

    let immediate = Immediate::<(), u32>::new(10);
    let ctx = immediate.send(());
    match ctx.poll() {
        AsyncStatus::Ready(r) => assert_eq!(10, r),
        AsyncStatus::Pending => panic!("an immediate receipt is never pending"),
    }
}

#[test]
fn async_sink_reports_the_wrapped_result() {
    let a = FnSink::new(|n: u32| n + 1).into_async();
    match a.send(41).poll() {
        AsyncStatus::Ready(r) => assert_eq!(42, r),
        AsyncStatus::Pending => panic!("a wrapped synchronous sink is never pending"),
    }
}
