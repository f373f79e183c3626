//! A single-writer store: producers enqueue actions through a channel, and the
//! owner of the store drains the channel and folds the actions, in the order
//! the channel received them, into its state with a pure reducer.
use std::sync::mpsc::{Receiver, Sender, TryRecvError};
use vstd::prelude::*;

verus! {

#[verifier::external_type_specification]
#[verifier::external_body]
#[verifier::reject_recursive_types(T)]
pub struct ExSender<T>(Sender<T>);

#[verifier::external_type_specification]
#[verifier::external_body]
#[verifier::reject_recursive_types(T)]
pub struct ExReceiver<T>(Receiver<T>);

/// Relies on `std::sync::mpsc::channel`: a connected sender and receiver of an
/// unbounded channel.
#[verifier::external_body]
fn open_channel<A>() -> (r: (Sender<A>, Receiver<A>)) {
    std::sync::mpsc::channel()
}

/// Relies on `Sender::send`: on failure the action is handed back unchanged.
#[verifier::external_body]
fn channel_send<A>(tx: &Sender<A>, action: A) -> (r: Result<(), A>)
    ensures
        r matches Err(back) ==> back == action,
{
    tx.send(action).map_err(|e| e.0)
}

/// Relies on `Sender`'s `Clone`: another sender into the same channel.
#[verifier::external_body]
fn sender_clone<A>(tx: &Sender<A>) -> (r: Sender<A>) {
    tx.clone()
}

/// Relies on `Receiver::try_iter`: the actions waiting in the channel, in the
/// order it received them, taken without blocking.
#[verifier::external_body]
fn receive_waiting<A>(rx: &Receiver<A>) -> (r: Vec<A>) {
    rx.try_iter().collect()
}

/// Relies on `Receiver::try_recv`: the next action, or word that none is
/// waiting, or that no sender is left.
#[verifier::external_body]
fn receive_one<A>(rx: &Receiver<A>) -> (r: Received<A>) {
    match rx.try_recv() {
        Ok(action) => Received::Action(action),
        Err(TryRecvError::Empty) => Received::Empty,
        Err(TryRecvError::Disconnected) => Received::Closed,
    }
}

/// The error of enqueueing an action.
#[derive(Debug)]
pub enum DispatchError<A> {
    /// No receiver is left; the action is handed back.
    ChannelClosed(A),
}

/// The outcome of one non-blocking receive.
pub enum Received<A> {
    /// The next action in the channel.
    Action(A),
    /// Nothing is waiting.
    Empty,
    /// Nothing is waiting and no sender is left.
    Closed,
}

/// What a dedicated loop should do after one step.
#[derive(Debug, PartialEq, Eq, Structural)]
pub enum LoopControl {
    Continue,
    Stop,
}

/// `f` can be applied to every state and action, and gives the same result
/// whenever it is given the same inputs.
pub open spec fn is_reducer<S, A, F: Fn(S, A) -> S>(f: F) -> bool {
    &&& forall|s: S, a: A| #[trigger] f.requires((s, a))
    &&& forall|s: S, a: A, r1: S, r2: S|
        #![trigger f.ensures((s, a), r1), f.ensures((s, a), r2)]
        f.ensures((s, a), r1) && f.ensures((s, a), r2) ==> r1 == r2
}

/// The state that `f` makes of `s` and `a`.
pub open spec fn reduced<S, A, F: Fn(S, A) -> S>(f: F, s: S, a: A) -> S {
    choose|r: S| f.ensures((s, a), r)
}

/// The state reached from `s` by applying `actions` one at a time, first to last.
pub open spec fn reduce_all<S, A, F: Fn(S, A) -> S>(f: F, s: S, actions: Seq<A>) -> S
    decreases actions.len(),
{
    if actions.len() == 0 {
        s
    } else {
        reduced(f, reduce_all(f, s, actions.drop_last()), actions.last())
    }
}

/// A capability to enqueue actions into a store, and nothing else.
#[verifier::reject_recursive_types(A)]
pub struct Dispatcher<A> {
    sender: Sender<A>,
}

impl<A> Dispatcher<A> {
    /// Enqueues `action`; fails, handing it back, only when the store's
    /// receiving end is gone.
    pub fn send(&self, action: A) -> (r: Result<(), DispatchError<A>>)
        ensures
            r matches Err(DispatchError::ChannelClosed(back)) ==> back == action,
    {
        match channel_send(&self.sender, action) {
            Ok(()) => Ok(()),
            Err(back) => Err(DispatchError::ChannelClosed(back)),
        }
    }
}

impl<A> Clone for Dispatcher<A> {
    fn clone(&self) -> Self {
        Dispatcher { sender: sender_clone(&self.sender) }
    }
}

/// The state, the actions staged for application, and the channel they come
/// through. Only the owner of the store ever changes the state.
#[verifier::reject_recursive_types(A)]
pub struct Store<A, S, F> {
    actions: Receiver<A>,
    dispatcher: Sender<A>,
    state: Option<S>,
    pending_actions: Vec<A>,
    root_reducer: F,
}

impl<A, S, F: Fn(S, A) -> S> Store<A, S, F> {
    /// The current state.
    pub closed spec fn current(&self) -> S {
        self.state->0
    }

    /// The actions drained from the channel and not applied yet, first received first.
    pub closed spec fn pending(&self) -> Seq<A> {
        self.pending_actions@
    }

    /// The reducer.
    pub closed spec fn reducer(&self) -> F {
        self.root_reducer
    }

    /// The state is present and the reducer is a function of its inputs.
    pub closed spec fn wf(&self) -> bool {
        self.state is Some && is_reducer(self.root_reducer)
    }

    /// A store holding `state`, with nothing staged.
    pub fn new(root_reducer: F, state: S) -> (r: Self)
        requires
            is_reducer(root_reducer),
        ensures
            r.wf(),
            r.current() == state,
            r.pending() == Seq::<A>::empty(),
            r.reducer() == root_reducer,
    {
        let (tx, rx) = open_channel();
        Store {
            actions: rx,
            dispatcher: tx,
            state: Some(state),
            pending_actions: Vec::new(),
            root_reducer,
        }
    }

    /// Relies on `Sender::send`, which fails only once the receiving end is
    /// gone: the store's sender and receiver are the two ends of the one
    /// channel made in `new`, and the borrow of the store keeps the receiver.
    #[verifier::external_body]
    fn send_to_own_channel(&self, action: A) -> (r: Result<(), A>)
        ensures
            r is Ok,
    {
        self.dispatcher.send(action).map_err(|e| e.0)
    }

    /// Enqueues `action` for a later drain; the state is not touched. The store
    /// holds the receiving end, so this always succeeds.
    pub fn dispatch(&self, action: A) -> (r: Result<(), DispatchError<A>>)
        ensures
            r is Ok,
    {
        match self.send_to_own_channel(action) {
            Ok(()) => Ok(()),
            Err(back) => Err(DispatchError::ChannelClosed(back)),
        }
    }

    /// A handle that producers elsewhere can use to enqueue actions.
    pub fn get_dispatcher(&self) -> (r: Dispatcher<A>) {
        Dispatcher { sender: sender_clone(&self.dispatcher) }
    }

    /// Appends `received` to the staged actions, keeping their order.
    pub fn stage(&mut self, received: Vec<A>)
        requires
            old(self).wf(),
        ensures
            final(self).wf(),
            final(self).current() == old(self).current(),
            final(self).reducer() == old(self).reducer(),
            final(self).pending() == old(self).pending() + received@,
    {
        let mut received = received;
        self.pending_actions.append(&mut received);
    }

    /// Drains every action waiting in the channel into the staged actions,
    /// after those already staged; applies none.
    pub fn tick(&mut self)
        requires
            old(self).wf(),
        ensures
            final(self).wf(),
            final(self).current() == old(self).current(),
            final(self).reducer() == old(self).reducer(),
            exists|received: Seq<A>| final(self).pending() == old(self).pending() + received,
    {
        let received = receive_waiting(&self.actions);
        self.stage(received);
    }

    /// Folds the staged actions into the state, first received first, and
    /// empties the stage.
    pub fn update(&mut self)
        requires
            old(self).wf(),
        ensures
            final(self).wf(),
            final(self).reducer() == old(self).reducer(),
            final(self).pending() == Seq::<A>::empty(),
            final(self).current() == reduce_all(
                old(self).reducer(),
                old(self).current(),
                old(self).pending(),
            ),
    {
        let mut batch: Vec<A> = Vec::new();
        std::mem::swap(&mut batch, &mut self.pending_actions);
        let ghost actions = batch@;
        let ghost n = actions.len();
        let mut s = match self.state.take() {
            Some(s) => s,
            None => {
                return;
            },
        };
        let ghost s0 = s;
        while batch.len() > 0
            invariant
                is_reducer(self.root_reducer),
                self.root_reducer == old(self).root_reducer,
                self.pending_actions@ == Seq::<A>::empty(),
                self.state is None,
                actions.len() == n,
                actions == old(self).pending(),
                s0 == old(self).current(),
                batch@.len() <= n,
                batch@ == actions.subrange(n - batch@.len(), n as int),
                s == reduce_all(self.root_reducer, s0, actions.subrange(0, n - batch@.len())),
            decreases batch@.len(),
        {
            let ghost done = (n - batch@.len()) as int;
            let a = batch.remove(0);
            let ghost before = s;
            s = (self.root_reducer)(s, a);
            proof {
                let f = self.root_reducer;
                assert(a == actions[done]);
                let prefix = actions.subrange(0, done + 1);
                assert(prefix.drop_last() =~= actions.subrange(0, done));
                assert(f.ensures((before, a), s));
                assert(f.ensures((before, a), reduced(f, before, a)));
                assert(batch@ =~= actions.subrange(n - batch@.len(), n as int));
            }
        }
        assert(actions.subrange(0, n as int) =~= actions);
        self.state = Some(s);
    }

    /// One step of a dedicated loop, given what a non-blocking receive gave
    /// and whether a stop was asked for. An action is staged and applied at
    /// once; on a stop or a closed channel the staged actions are applied and
    /// the loop is told to stop.
    pub fn step(&mut self, received: Received<A>, stop_requested: bool) -> (r: LoopControl)
        requires
            old(self).wf(),
        ensures
            final(self).wf(),
            final(self).reducer() == old(self).reducer(),
            final(self).pending() == Seq::<A>::empty(),
            r == (if stop_requested || received is Closed {
                LoopControl::Stop
            } else {
                LoopControl::Continue
            }),
            final(self).current() == (match received {
                Received::Action(a) => reduce_all(
                    old(self).reducer(),
                    old(self).current(),
                    old(self).pending().push(a),
                ),
                _ => reduce_all(old(self).reducer(), old(self).current(), old(self).pending()),
            }),
    {
        let r = match received {
            Received::Action(a) => {
                self.pending_actions.push(a);
                LoopControl::Continue
            },
            Received::Empty => LoopControl::Continue,
            Received::Closed => LoopControl::Stop,
        };
        self.update();
        if stop_requested {
            LoopControl::Stop
        } else {
            r
        }
    }

    /// Checks for a stop first, then receives at most one action without
    /// blocking and takes one loop step with it.
    pub fn poll_once(&mut self, stop_requested: bool) -> (r: LoopControl)
        requires
            old(self).wf(),
        ensures
            final(self).wf(),
            final(self).reducer() == old(self).reducer(),
            final(self).pending() == Seq::<A>::empty(),
            stop_requested ==> r == LoopControl::Stop && final(self).current() == reduce_all(
                old(self).reducer(),
                old(self).current(),
                old(self).pending(),
            ),
            r == LoopControl::Stop ==> final(self).current() == reduce_all(
                old(self).reducer(),
                old(self).current(),
                old(self).pending(),
            ),
            !stop_requested ==> (final(self).current() == reduce_all(
                old(self).reducer(),
                old(self).current(),
                old(self).pending(),
            ) || exists|a: A|
                final(self).current() == reduce_all(
                    old(self).reducer(),
                    old(self).current(),
                    old(self).pending().push(a),
                )),
    {
        if stop_requested {
            self.update();
            return LoopControl::Stop;
        }
        let received = receive_one(&self.actions);
        self.step(received, false)
    }

    /// The current state.
    pub fn state(&self) -> (r: &S)
        requires
            self.wf(),
        ensures
            *r == self.current(),
    {
        self.state.as_ref().unwrap()
    }

    /// The number of staged actions.
    pub fn pending_len(&self) -> (r: usize)
        ensures
            r == self.pending().len(),
    {
        self.pending_actions.len()
    }
}

/// Applying the received actions in two batches, one drain after the other,
/// ends in the same state as applying them all at once in the order received.
pub proof fn batches_compose<S, A, F: Fn(S, A) -> S>(f: F, s: S, first: Seq<A>, second: Seq<A>)
    ensures
        reduce_all(f, reduce_all(f, s, first), second) == reduce_all(f, s, first + second),
    decreases second.len(),
{
    if second.len() == 0 {
        assert(first + second =~= first);
    } else {
        batches_compose(f, s, first, second.drop_last());
        assert((first + second).drop_last() =~= first + second.drop_last());
        assert((first + second).last() == second.last());
    }
}

} // verus!
