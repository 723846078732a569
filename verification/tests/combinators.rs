use std::cell::RefCell;

use sink::echo::{EchoSink, IEcho};
use sink::fnsink::FnSink;
use sink::map::{MapSink, SinkMap};
use sink::optionmap::{OptionMap, SinkOptionMap};
use sink::reduce::{Reduce, SinkReduce};
use sink::reflect::{IReflect, Reflect};
use sink::resultmap::{ResultMap, SinkResultMap};
use sink::sink::{Dispatcher, Sink};
use sink::sink2::{Sink2, Sink2Result, Sink2Signal};
use sink::nullsink::NullSink;

#[test]
fn echo_explicitly_construct() {
    let s = FnSink::new(|i: &str| i.len());
    let s = EchoSink::new(s);
    assert_eq!("", s.send(""));
    assert_eq!("some text", s.send("some text"));
}

#[test]
fn echo_construct_through_the_map_function() {
    let s = FnSink::new(|i: u32| i * i);
    assert_eq!(100, s.send(10));
    let s = s.echo();
    assert_eq!(10, s.send(10));
}

#[test]
fn map_explicitly_construct() {
    let s = FnSink::new(|item| item);
    let s = MapSink::new(s, |item: &'static str| item.len());
    assert_eq!(0, s.send(""));
    assert_eq!(9, s.send("some text"));
}

#[test]
fn map_construct_through_the_map_function() {
    let s = FnSink::new(|item: usize| item);
    let s = s.map(|item: &'static str| item.len());
    assert_eq!(0, s.send(""));
    assert_eq!(9, s.send("some text"));
}

#[test]
fn reduce_explicitly_construct() {
    let state = RefCell::new(Vec::new());
    let s = FnSink::new(|item: &'static str| {
        state.borrow_mut().push(item);
        item.len()
    });
    let s = Reduce::new(s);
    assert_eq!(Some(0), s.send(Some("")));
    assert_eq!(Some(9), s.send(Some("some text")));
    assert_eq!(None, s.send(None));
    assert_eq!(vec!["", "some text"], *state.borrow());
}

#[test]
fn construct_through_the_reduce_function() {
    let state = RefCell::new(Vec::new());
    let s = FnSink::new(|item: &'static str| {
        state.borrow_mut().push(item);
        item.len()
    });
    let s = s.reduce();
    assert_eq!(Some(0), s.send(Some("")));
    assert_eq!(Some(9), s.send(Some("some text")));
    assert_eq!(None, s.send(None));
    assert_eq!(vec!["", "some text"], *state.borrow());
}

#[test]
fn reflect_explicitly_construct() {
    let s = FnSink::new(|i: &str| i.len());
    let s = Reflect::new(s);
    assert_eq!(("", 0), s.send(""));
    assert_eq!(("some text", 9), s.send("some text"));
}

#[test]
fn reflect_construct_through_the_map_function() {
    let s = FnSink::new(|i: u32| i * i);
    assert_eq!(100, s.send(10));
    let s = s.reflect();
    assert_eq!((10, 100), s.send(10));
}

#[test]
fn resultmap_explicitly_construct() {
    let s = FnSink::new(|item: &'static str| item.len());
    let s = ResultMap::new(s, |item: usize| format!("len: {:?}", item));
    assert_eq!("len: 0", s.send(""));
    assert_eq!("len: 9", s.send("some text"));
}

#[test]
fn resultmap_construct_through_the_map_function() {
    let s = FnSink::new(|item: &'static str| item.len());
    let s = s.map_result(|item: usize| format!("len: {:?}", item));
    assert_eq!("len: 0", s.send(""));
    assert_eq!("len: 9", s.send("some text"));
}

#[test]
fn optionmap_explicitly_construct() {
    let state = RefCell::new(Vec::new());
    let s = FnSink::new(|item| {
        state.borrow_mut().push(item);
        item
    });
    let state2 = RefCell::new(Vec::new());
    let s = OptionMap::new(s, |item: &'static str| {
        state2.borrow_mut().push(item);
        item.len()
    });
    assert_eq!(Some(0), s.send(Some("")));
    assert_eq!(Some(9), s.send(Some("some text")));
    assert_eq!(None, s.send(None));
    assert_eq!(vec![0, 9], *state.borrow());
    assert_eq!(vec!["", "some text"], *state2.borrow());
}

#[test]
#[allow(non_snake_case)]
fn construct_through_the_OptionMap_function() {
    let state = RefCell::new(Vec::new());
    let s = FnSink::new(|item: usize| {
        state.borrow_mut().push(item);
        item
    });
    let state2 = RefCell::new(Vec::new());
    let s = s.option_map(|item: &'static str| {
        state2.borrow_mut().push(item);
        item.len()
    });
    assert_eq!(Some(0), s.send(Some("")));
    assert_eq!(Some(9), s.send(Some("some text")));
    assert_eq!(None, s.send(None));
    assert_eq!(vec![0, 9], *state.borrow());
    assert_eq!(vec!["", "some text"], *state2.borrow());
}

#[test]
fn sink2_routes_each_signal_to_its_addressee() {
    let square = FnSink::new(|i: u32| i * i);
    let length = FnSink::new(|s: &'static str| s.len());
    let pair = Sink2::new(&square, &length);
    match pair.send(Sink2Signal::Sink0(7)) {
        Sink2Result::Sink0(r) => assert_eq!(49, r),
        Sink2Result::Sink1(_) => panic!("answered by the wrong sink"),
    }
    match pair.send(Sink2Signal::Sink1("four")) {
        Sink2Result::Sink1(r) => assert_eq!(4, r),
        Sink2Result::Sink0(_) => panic!("answered by the wrong sink"),
    }
    let swapped = pair.swap();
    match swapped.send(Sink2Signal::Sink0("abc")) {
        Sink2Result::Sink0(r) => assert_eq!(3, r),
        Sink2Result::Sink1(_) => panic!("answered by the wrong sink"),
    }
    let (first, second) = swapped.spread();
    assert_eq!(2, first.send("ab"));
    assert_eq!(9, second.send(3));
}

#[test]
fn nullsink_answers_unit() {
    let s = NullSink::<u32>::new();
    assert_eq!((), s.send(5));
    assert_eq!((), s.send(6));
}

#[test]
fn dispatch_forwards_to_a_unit_sink() {
    let seen = RefCell::new(Vec::new());
    let s = FnSink::new(|i: u32| seen.borrow_mut().push(i));
    s.dispatch(3);
    s.dispatch(4);
    assert_eq!(vec![3, 4], *seen.borrow());
}

#[test]
fn map_then_map_result_composes() {
    let s = FnSink::new(|n: usize| n + 1)
        .map(|text: &'static str| text.len())
        .map_result(|n: usize| n * 10);
    assert_eq!(10, s.send(""));
    assert_eq!(40, s.send("abc"));
}

#[test]
fn option_map_matches_reduce_of_map() {
    let direct = OptionMap::new(FnSink::new(|n: usize| n * 3), |s: &'static str| s.len());
    let composed = FnSink::new(|n: usize| n * 3).map(|s: &'static str| s.len()).reduce();
    for input in [None, Some(""), Some("ab"), Some("some text")] {
        assert_eq!(direct.send(input), composed.send(input));
    }
}

#[test]
fn nested_maps_fuse() {
    let nested = FnSink::new(|n: u64| n + 1).map(|n: u32| u64::from(n) * 2).map(|s: &'static str| s.len() as u32);
    let fused = FnSink::new(|n: u64| n + 1).map(|s: &'static str| u64::from(s.len() as u32) * 2);
    for input in ["", "a", "some text"] {
        assert_eq!(fused.send(input), nested.send(input));
    }
    assert_eq!(19, nested.send("some text"));
}

#[test]
fn swapping_twice_gives_back_the_pair() {
    let square = FnSink::new(|i: u32| i * i);
    let length = FnSink::new(|s: &'static str| s.len());
    let pair = Sink2::new(&square, &length);
    let back = pair.swap().swap();
    match back.send(Sink2Signal::Sink0(5)) {
        Sink2Result::Sink0(r) => assert_eq!(25, r),
        Sink2Result::Sink1(_) => panic!("answered by the wrong sink"),
    }
}
