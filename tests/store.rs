use versioned_store::store::{DispatchError, LoopControl, Received, Store};

#[test]
fn can_create_store() {
    #[derive(Clone, Debug)]
    enum Action {}
    type R = fn(i32, Action) -> i32;
    let r: R = |state: i32, _: Action| state;
    let store = Some(Store::<Action, i32, R>::new(r, 0));
    assert!(store.is_some());
}

#[derive(Clone, Debug)]
enum Counter {
    Add(i32),
    Remove(i32),
}

fn count(state: i32, action: Counter) -> i32 {
    match action {
        Counter::Add(n) => state + n,
        Counter::Remove(n) => state - n,
    }
}

#[test]
fn dispatch_from_two_dispatchers() {
    let mut store = Store::new(count, 0);
    let dispatcher_1 = store.get_dispatcher();
    let dispatcher_2 = dispatcher_1.clone();
    for d in [&dispatcher_1, &dispatcher_2] {
        assert!(d.send(Counter::Remove(1)).is_ok());
        assert!(d.send(Counter::Add(1)).is_ok());
        assert!(d.send(Counter::Add(1)).is_ok());
    }
    store.tick();
    assert_eq!(store.pending_len(), 6);
    store.update();
    assert_eq!(*store.state(), 2);
    assert_eq!(store.pending_len(), 0);
}

fn append(state: String, action: &'static str) -> String {
    state + action
}

#[test]
fn actions_apply_in_receive_order() {
    let mut store = Store::new(append, String::new());
    let p1 = store.get_dispatcher();
    let p2 = store.get_dispatcher();
    p1.send("A1").unwrap();
    p2.send("B1").unwrap();
    p1.send("A2").unwrap();
    store.tick();
    assert_eq!(*store.state(), "");
    store.update();
    assert_eq!(*store.state(), "A1B1A2");
}

#[test]
fn dispatch_does_not_apply() {
    let mut store = Store::new(append, String::from("s"));
    store.dispatch("x").unwrap();
    assert_eq!(*store.state(), "s");
    assert_eq!(store.pending_len(), 0);
    store.update();
    assert_eq!(*store.state(), "s");
    store.tick();
    store.update();
    assert_eq!(*store.state(), "sx");
}

#[test]
fn later_drains_go_after_earlier_ones() {
    let mut store = Store::new(append, String::new());
    store.dispatch("a").unwrap();
    store.tick();
    store.dispatch("b").unwrap();
    store.tick();
    store.stage(vec!["c"]);
    assert_eq!(store.pending_len(), 3);
    store.update();
    assert_eq!(*store.state(), "abc");
}

#[test]
fn send_fails_once_the_store_is_gone() {
    let store = Store::new(append, String::new());
    let dispatcher = store.get_dispatcher();
    drop(store);
    match dispatcher.send("late") {
        Err(DispatchError::ChannelClosed(back)) => assert_eq!(back, "late"),
        Ok(()) => panic!("send succeeded without a receiver"),
    }
}

#[test]
fn step_applies_received_action_and_stops_on_request() {
    let mut store = Store::new(append, String::new());
    store.stage(vec!["a"]);
    assert_eq!(store.step(Received::Action("b"), false), LoopControl::Continue);
    assert_eq!(*store.state(), "ab");
    assert_eq!(store.step(Received::Empty, false), LoopControl::Continue);
    assert_eq!(store.step(Received::Closed, false), LoopControl::Stop);
    store.stage(vec!["c"]);
    assert_eq!(store.step(Received::Empty, true), LoopControl::Stop);
    assert_eq!(*store.state(), "abc");
    assert_eq!(store.pending_len(), 0);
}

#[test]
fn poll_once_takes_one_action_at_a_time() {
    let mut store = Store::new(count, 10);
    store.dispatch(Counter::Add(5)).unwrap();
    store.dispatch(Counter::Remove(3)).unwrap();
    assert_eq!(store.poll_once(false), LoopControl::Continue);
    assert_eq!(*store.state(), 15);
    assert_eq!(store.poll_once(false), LoopControl::Continue);
    assert_eq!(*store.state(), 12);
    assert_eq!(store.poll_once(false), LoopControl::Continue);
    assert_eq!(*store.state(), 12);
    store.stage(vec![Counter::Add(1)]);
    assert_eq!(store.poll_once(true), LoopControl::Stop);
    assert_eq!(*store.state(), 13);
}
