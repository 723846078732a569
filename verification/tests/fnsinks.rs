use sink::fnsink::FnSink;
use sink::sink::Sink;

#[test]
fn handle_single_unit_item_dispatched_to_sink() {
    let s = FnSink::new(|_item| ());
    assert_eq!((), s.send(()));
}

#[test]
fn handle_multiple_unit_items_dispatched_to_sink() {
    let s = FnSink::new(|_item| ());
    assert_eq!((), s.send(()));
    assert_eq!((), s.send(()));
}

#[test]
fn echo_single_u32_item_dispatched_to_sink() {
    let s = FnSink::new(|item: u32| item);
    assert_eq!(10, s.send(10));
}

#[test]
fn echo_multiple_u32_items_dispatched_to_sink() {
    let s = FnSink::new(|item: u32| item);
    assert_eq!(10, s.send(10));
    assert_eq!(20, s.send(20));
}

#[derive(Clone, Debug, Eq, PartialEq)]
struct TestStruct {
    value: &'static str,
}

#[test]
fn handle_single_struct_item_dispatched_to_sink() {
    let expected = TestStruct { value: "test" };
    let s = FnSink::new(|item| item);
    assert_eq!(expected.clone(), s.send(expected));
}

#[test]
fn handle_multiple_struct_items_dispatched_to_sink() {
    let expected1 = TestStruct { value: "test1" };
    let expected2 = TestStruct { value: "test2" };
    let s = FnSink::new(|item| item);
    assert_eq!(expected1.clone(), s.send(expected1));
    assert_eq!(expected2.clone(), s.send(expected2));
}
