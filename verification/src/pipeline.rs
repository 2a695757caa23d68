//! Both sides and the two queues between them, as a model, and what holds of
//! every run of it.
//!
//! The real channels are shared between two lines of execution, so no single
//! function ever sees a whole queue. The model does: a `Pipeline` holds the
//! two queues as sequences, the broker's state, the foreground's state, and a
//! record of every message that was ever accepted, taken out, sent or
//! applied. One `Op` is one thing that one side does; a run is any sequence of
//! them, in any interleaving.
//!
//! The two sides move as the executable code does: the broker by
//! `broker::next_state`, the foreground by `poller::after_submit` and
//! `poller::after_poll`. The queues behave as unbounded FIFO channels are
//! documented to: a send is accepted while the receiving side is there and
//! appends, a look takes the oldest message, a dropped receiver discards what
//! is queued, and a receiver finds its channel closed once it is empty and the
//! sender is gone.

use crate::broker::{lemma_step_keeps_well_formed, next_state, BrokerEvent, BrokerState};
use crate::channel::{ChannelClosed, Polled};
use crate::event::{response_to, responses_to, UiEvent};
use crate::poller::{after_hang_up, after_poll, after_submit, ForegroundView};
use vstd::prelude::*;

verus! {

/// The whole system at one moment.
pub struct Pipeline {
    /// The requests that are queued, oldest first.
    pub requests: Seq<UiEvent>,
    /// The responses that are queued, oldest first.
    pub responses: Seq<UiEvent>,
    /// The foreground still holds its response receiver.
    pub receiver_held: bool,
    /// Where the broker stands.
    pub broker: BrokerState,
    /// The broker task was torn down before it ended by itself.
    pub broker_dropped: bool,
    /// The foreground's state.
    pub foreground: ForegroundView,
    /// The flag that the foreground started with.
    pub first_flag: bool,
    /// Every request that a submit has queued, in the order of the submits.
    pub submitted: Seq<UiEvent>,
    /// Every request that the broker has taken out, in that order.
    pub delivered: Seq<UiEvent>,
    /// Every response that the broker has queued, in that order.
    pub emitted: Seq<UiEvent>,
    /// Every response that the foreground has taken out, in that order.
    pub applied: Seq<UiEvent>,
}

/// One thing that one side does.
pub enum Op {
    /// The foreground submits this request.
    Submit(UiEvent),
    /// The foreground looks for one response.
    DrainOne,
    /// The foreground gives up its request sender.
    HangUp,
    /// The foreground ends and drops both of its ends.
    Leave,
    /// The broker gets on with what it is waiting for, if that has come.
    BrokerTurn,
    /// The broker task is torn down where it stands.
    BrokerDropped,
}

/// The response that a broker in this state still owes for the request in
/// flight: as a sequence, so that it can be appended to what was sent.
pub open spec fn owed(broker: BrokerState) -> Seq<UiEvent> {
    match broker {
        BrokerState::Working { request } => match response_to(request) {
            Some(response) => seq![response],
            None => Seq::empty(),
        },
        BrokerState::Sending { response } => seq![response],
        _ => Seq::empty(),
    }
}

/// Every message in `messages` is a response.
pub open spec fn all_responses(messages: Seq<UiEvent>) -> bool {
    forall|i: int| 0 <= i < messages.len() ==> (#[trigger] messages[i]) is ToggleUiStateFinished
}

impl Pipeline {
    /// The system as `poller::connect` leaves it, with a broker that has just
    /// started.
    pub open spec fn start(show_extra_label: bool) -> Pipeline {
        Pipeline {
            requests: Seq::empty(),
            responses: Seq::empty(),
            receiver_held: true,
            broker: BrokerState::Idle,
            broker_dropped: false,
            foreground: ForegroundView {
                show_extra_label,
                cut_off: false,
                hung_up: false,
                drained: false,
            },
            first_flag: show_extra_label,
            submitted: Seq::empty(),
            delivered: Seq::empty(),
            emitted: Seq::empty(),
            applied: Seq::empty(),
        }
    }

    /// The foreground still holds its request sender.
    pub open spec fn sender_held(self) -> bool {
        !self.foreground.hung_up
    }

    /// The broker task is there and has not ended: it holds its two ends.
    pub open spec fn broker_running(self) -> bool {
        !self.broker_dropped && !self.broker.terminated()
    }

    /// The broker has lost nothing: it was neither torn down nor cut short by
    /// a closed response channel.
    pub open spec fn intact(self) -> bool {
        !self.broker_dropped && !(self.broker is Failed)
    }

    /// What a submit returns now: the request is accepted if the foreground
    /// holds its sender and has no reason to think the background gone, and
    /// the broker holds the receiving end.
    pub open spec fn submit_outcome(self) -> Result<(), ChannelClosed> {
        if self.sender_held() && !self.foreground.closed() && self.broker_running() {
            Ok(())
        } else {
            Err(ChannelClosed)
        }
    }

    /// What one look into the response channel finds now.
    pub open spec fn poll_outcome(self) -> Polled {
        if self.foreground.drained {
            Polled::Closed
        } else if self.responses.len() > 0 {
            Polled::Ready(self.responses.first())
        } else if self.broker_running() {
            Polled::Empty
        } else {
            Polled::Closed
        }
    }

    /// The system after the foreground has submitted `request`.
    pub open spec fn submit(self, request: UiEvent) -> Pipeline {
        let outcome = self.submit_outcome();
        if outcome is Ok {
            Pipeline {
                requests: self.requests.push(request),
                submitted: self.submitted.push(request),
                foreground: after_submit(self.foreground, outcome),
                ..self
            }
        } else {
            Pipeline { foreground: after_submit(self.foreground, outcome), ..self }
        }
    }

    /// The system after the foreground has looked for one response. A
    /// foreground that has left looks no more.
    pub open spec fn drain_one(self) -> Pipeline {
        if !self.receiver_held {
            self
        } else {
            let polled = self.poll_outcome();
            match polled {
                Polled::Ready(message) => Pipeline {
                    responses: self.responses.drop_first(),
                    applied: self.applied.push(message),
                    foreground: after_poll(self.foreground, polled),
                    ..self
                },
                _ => Pipeline { foreground: after_poll(self.foreground, polled), ..self },
            }
        }
    }

    /// The system after the foreground has given up its request sender.
    pub open spec fn hang_up(self) -> Pipeline {
        Pipeline { foreground: after_hang_up(self.foreground), ..self }
    }

    /// The system after the foreground has ended: both of its ends are
    /// dropped, and with the receiver the responses that were still queued.
    /// For the request channel a dropped sender is a sender that has let go.
    pub open spec fn leave(self) -> Pipeline {
        Pipeline {
            receiver_held: false,
            responses: Seq::empty(),
            foreground: after_hang_up(self.foreground),
            ..self
        }
    }

    /// The system after the broker has got on with what it was waiting for.
    ///
    /// An idle broker takes the oldest request; with none queued it ends if
    /// the sender is gone and goes on waiting otherwise. A working broker
    /// finishes its delay. A sending broker queues its response, or fails if
    /// nobody holds the receiving end; a broker that fails drops its request
    /// receiver and with it what was queued there.
    pub open spec fn broker_turn(self) -> Pipeline {
        if !self.broker_running() {
            self
        } else {
            match self.broker {
                BrokerState::Idle => {
                    if self.requests.len() > 0 {
                        let request = self.requests.first();
                        Pipeline {
                            broker: next_state(self.broker, BrokerEvent::Received(request)),
                            requests: self.requests.drop_first(),
                            delivered: self.delivered.push(request),
                            ..self
                        }
                    } else if !self.sender_held() {
                        Pipeline {
                            broker: next_state(self.broker, BrokerEvent::RequestsClosed),
                            ..self
                        }
                    } else {
                        self
                    }
                },
                BrokerState::Working { .. } => Pipeline {
                    broker: next_state(self.broker, BrokerEvent::DelayElapsed),
                    ..self
                },
                BrokerState::Sending { response } => {
                    if self.receiver_held {
                        Pipeline {
                            broker: next_state(self.broker, BrokerEvent::Sent),
                            responses: self.responses.push(response),
                            emitted: self.emitted.push(response),
                            ..self
                        }
                    } else {
                        Pipeline {
                            broker: next_state(self.broker, BrokerEvent::SendFailed),
                            requests: Seq::empty(),
                            ..self
                        }
                    }
                },
                _ => self,
            }
        }
    }

    /// The system after the broker task has been torn down: its request
    /// receiver is dropped, and with it what was queued there. A broker that
    /// has already ended is not there to be torn down.
    pub open spec fn drop_broker(self) -> Pipeline {
        if self.broker_running() {
            Pipeline { broker_dropped: true, requests: Seq::empty(), ..self }
        } else {
            self
        }
    }

    /// The system after `op`.
    pub open spec fn step(self, op: Op) -> Pipeline {
        match op {
            Op::Submit(request) => self.submit(request),
            Op::DrainOne => self.drain_one(),
            Op::HangUp => self.hang_up(),
            Op::Leave => self.leave(),
            Op::BrokerTurn => self.broker_turn(),
            Op::BrokerDropped => self.drop_broker(),
        }
    }

    /// What holds of the system after every run from `start`.
    ///
    /// Down the request path: what the broker took out is the beginning of
    /// what was submitted, and while the broker has lost nothing, the rest of
    /// it is exactly what is queued. Back up the response path: what the
    /// broker sent is the beginning of the responses that its requests call
    /// for, with at most the one for the request in flight outstanding; what
    /// the foreground took out is the beginning of what was sent, and while
    /// it holds its receiver the rest of it is exactly what is queued. The
    /// flag is what the last response that was taken out says.
    pub open spec fn inv(self) -> bool {
        &&& self.broker.well_formed()
        &&& self.delivered.is_prefix_of(self.submitted)
        &&& self.intact() ==> self.submitted == self.delivered + self.requests
        &&& !self.broker_running() ==> self.requests.len() == 0
        &&& self.emitted.is_prefix_of(responses_to(self.delivered))
        &&& self.intact() ==> self.emitted + owed(self.broker) == responses_to(self.delivered)
        &&& self.applied.is_prefix_of(self.emitted)
        &&& self.receiver_held ==> self.emitted == self.applied + self.responses
        &&& !self.receiver_held ==> self.responses.len() == 0
        &&& all_responses(self.emitted)
        &&& self.broker is Stopped ==> !self.sender_held()
        &&& !self.sender_held() ==> self.foreground.cut_off
        &&& self.foreground.show_extra_label == if self.applied.len() == 0 {
            self.first_flag
        } else {
            self.applied.last()->new_state
        }
    }
}

/// The system after the ops of `ops`, one after the other.
pub open spec fn run(from: Pipeline, ops: Seq<Op>) -> Pipeline
    decreases ops.len(),
{
    if ops.len() == 0 {
        from
    } else {
        run(from.step(ops.first()), ops.drop_first())
    }
}

/// How many turns the broker gets in `ops`.
pub open spec fn broker_turns(ops: Seq<Op>) -> nat
    decreases ops.len(),
{
    if ops.len() == 0 {
        0
    } else {
        let rest = broker_turns(ops.drop_first());
        if ops.first() is BrokerTurn {
            rest + 1
        } else {
            rest
        }
    }
}

proof fn lemma_start_inv(show_extra_label: bool)
    ensures
        Pipeline::start(show_extra_label).inv(),
{
    let s = Pipeline::start(show_extra_label);
    assert(responses_to(s.delivered) =~= Seq::empty());
    assert(s.emitted + owed(s.broker) =~= Seq::empty());
    assert(s.submitted =~= s.delivered + s.requests);
    assert(s.emitted =~= s.applied + s.responses);
}

proof fn lemma_responses_to_push(requests: Seq<UiEvent>, request: UiEvent)
    ensures
        responses_to(requests.push(request)) == match response_to(request) {
            Some(response) => responses_to(requests).push(response),
            None => responses_to(requests),
        },
{
    assert(requests.push(request).drop_last() =~= requests);
}

proof fn lemma_submit_inv(s: Pipeline, request: UiEvent)
    requires
        s.inv(),
    ensures
        s.submit(request).inv(),
{
    let t = s.submit(request);
    if s.submit_outcome() is Ok {
        assert(t.submitted =~= t.delivered + t.requests);
    }
}

proof fn lemma_drain_one_inv(s: Pipeline)
    requires
        s.inv(),
    ensures
        s.drain_one().inv(),
{
    let t = s.drain_one();
    if s.receiver_held && s.poll_outcome() is Ready {
        let message = s.responses.first();
        assert(t.emitted =~= t.applied + t.responses);
        assert(s.emitted[s.applied.len() as int] == message);
        assert(message is ToggleUiStateFinished);
        assert(t.applied.last() == message);
    }
}

proof fn lemma_broker_turn_inv(s: Pipeline)
    requires
        s.inv(),
    ensures
        s.broker_turn().inv(),
{
    let t = s.broker_turn();
    if s.broker_running() {
        match s.broker {
            BrokerState::Idle => {
                if s.requests.len() > 0 {
                    let request = s.requests.first();
                    lemma_step_keeps_well_formed(s.broker, BrokerEvent::Received(request));
                    lemma_responses_to_push(s.delivered, request);
                    assert(s.emitted + owed(s.broker) =~= s.emitted);
                    assert(t.submitted =~= t.delivered + t.requests);
                    assert(t.emitted + owed(t.broker) =~= responses_to(t.delivered));
                } else if !s.sender_held() {
                    assert(t.emitted + owed(t.broker) =~= s.emitted + owed(s.broker));
                }
            },
            BrokerState::Working { request } => {
                lemma_step_keeps_well_formed(s.broker, BrokerEvent::DelayElapsed);
                assert(t.emitted + owed(t.broker) =~= s.emitted + owed(s.broker));
            },
            BrokerState::Sending { response } => {
                if s.receiver_held {
                    assert(t.emitted =~= s.emitted + owed(s.broker));
                    assert(t.emitted + owed(t.broker) =~= t.emitted);
                    assert(t.emitted =~= t.applied + t.responses);
                }
            },
            _ => {},
        }
    }
}

proof fn lemma_step_inv(s: Pipeline, op: Op)
    requires
        s.inv(),
    ensures
        s.step(op).inv(),
{
    match op {
        Op::Submit(request) => lemma_submit_inv(s, request),
        Op::DrainOne => lemma_drain_one_inv(s),
        Op::HangUp => {},
        Op::Leave => {},
        Op::BrokerTurn => lemma_broker_turn_inv(s),
        Op::BrokerDropped => {},
    }
}

proof fn lemma_run_inv(s: Pipeline, ops: Seq<Op>)
    requires
        s.inv(),
    ensures
        run(s, ops).inv(),
    decreases ops.len(),
{
    if ops.len() > 0 {
        lemma_step_inv(s, ops.first());
        lemma_run_inv(s.step(ops.first()), ops.drop_first());
    }
}

/// How many turns a broker in this state needs to get back to idle.
pub open spec fn turns_owed(broker: BrokerState) -> nat {
    match broker {
        BrokerState::Working { .. } => 2,
        BrokerState::Sending { .. } => 1,
        _ => 0,
    }
}

/// `op` takes neither side away: the foreground keeps its receiver and the
/// broker task is not torn down.
pub open spec fn keeps_both_sides(op: Op) -> bool {
    !(op is Leave) && !(op is BrokerDropped)
}

/// `op` gives the broker nothing new to do when it is done from a state like
/// `from`: it is a turn of the broker or a look of the foreground, or it is a
/// submit or a hang-up that has no effect any more.
pub open spec fn adds_no_work(from: Pipeline, op: Op) -> bool {
    match op {
        Op::BrokerTurn => true,
        Op::DrainOne => true,
        Op::Submit(_) => from.foreground.cut_off,
        Op::HangUp => !from.sender_held(),
        _ => false,
    }
}

/// How many turns the broker needs until nothing is left for it to do: to
/// finish the request in flight, three for each queued request, and one to
/// find the request channel closed if the sender is gone.
pub open spec fn work_left(s: Pipeline) -> nat {
    turns_owed(s.broker) + 3 * s.requests.len() + if !s.sender_held() && !(s.broker is Stopped) {
        1nat
    } else {
        0nat
    }
}

/// How many turns the broker needs until it has taken out `count` requests
/// in all.
pub open spec fn turns_until_delivered(s: Pipeline, count: nat) -> nat {
    if s.delivered.len() >= count {
        0
    } else {
        turns_owed(s.broker) + 3 * (count - s.delivered.len()) as nat
    }
}

/// The ops of a foreground that submits the requests of `batch` one after the
/// other, with nothing in between.
pub open spec fn submits(batch: Seq<UiEvent>) -> Seq<Op> {
    Seq::new(batch.len(), |i: int| Op::Submit(batch[i]))
}

proof fn lemma_prefix_transitive(a: Seq<UiEvent>, b: Seq<UiEvent>, c: Seq<UiEvent>)
    requires
        a.is_prefix_of(b),
        b.is_prefix_of(c),
    ensures
        a.is_prefix_of(c),
{
    assert(a =~= c.subrange(0, a.len() as int));
}

proof fn lemma_delivery_progress(s: Pipeline, ops: Seq<Op>, count: nat)
    requires
        s.inv(),
        s.intact(),
        s.receiver_held,
        count <= s.submitted.len(),
        forall|i: int| 0 <= i < ops.len() ==> keeps_both_sides(#[trigger] ops[i]),
        broker_turns(ops) >= turns_until_delivered(s, count),
    ensures
        run(s, ops).inv(),
        run(s, ops).delivered.len() >= count,
        s.submitted.is_prefix_of(run(s, ops).submitted),
    decreases ops.len(),
{
    if ops.len() == 0 {
        assert(s.submitted =~= s.submitted.subrange(0, s.submitted.len() as int));
    } else {
        let op = ops.first();
        let next = s.step(op);
        let rest = ops.drop_first();
        lemma_step_inv(s, op);
        assert(keeps_both_sides(op));
        assert forall|i: int| 0 <= i < rest.len() implies keeps_both_sides(#[trigger] rest[i]) by {
            assert(rest[i] == ops[i + 1]);
        }
        assert(s.submitted.is_prefix_of(next.submitted)) by {
            assert(s.submitted =~= next.submitted.subrange(0, s.submitted.len() as int));
        }
        assert(broker_turns(rest) >= turns_until_delivered(next, count)) by {
            if op is BrokerTurn && s.delivered.len() < count {
                assert(s.requests.len() == s.submitted.len() - s.delivered.len());
            }
        }
        lemma_delivery_progress(next, rest, count);
        lemma_prefix_transitive(s.submitted, next.submitted, run(next, rest).submitted);
    }
}

proof fn lemma_broker_settles(s: Pipeline, ops: Seq<Op>)
    requires
        s.inv(),
        s.intact(),
        s.receiver_held,
        forall|i: int| 0 <= i < ops.len() ==> adds_no_work(s, #[trigger] ops[i]),
        broker_turns(ops) >= work_left(s),
    ensures
        run(s, ops).inv(),
        run(s, ops).intact(),
        run(s, ops).receiver_held,
        run(s, ops).sender_held() == s.sender_held(),
        run(s, ops).submitted == s.submitted,
        work_left(run(s, ops)) == 0,
    decreases ops.len(),
{
    if ops.len() > 0 {
        let op = ops.first();
        let next = s.step(op);
        let rest = ops.drop_first();
        lemma_step_inv(s, op);
        assert(adds_no_work(s, op));
        assert forall|i: int| 0 <= i < rest.len() implies adds_no_work(next, #[trigger] rest[i]) by {
            assert(rest[i] == ops[i + 1]);
            assert(adds_no_work(s, ops[i + 1]));
        }
        lemma_broker_settles(next, rest);
    }
}

proof fn lemma_settled(s: Pipeline)
    requires
        s.inv(),
        s.intact(),
        work_left(s) == 0,
    ensures
        s.requests.len() == 0,
        s.delivered == s.submitted,
        s.emitted == responses_to(s.submitted),
        s.broker == if s.sender_held() {
            BrokerState::Idle
        } else {
            BrokerState::Stopped
        },
{
    assert(s.delivered + s.requests =~= s.delivered);
    assert(s.emitted + owed(s.broker) =~= s.emitted);
}

proof fn lemma_submits_queue(s: Pipeline, batch: Seq<UiEvent>)
    requires
        s.sender_held(),
        !s.foreground.closed(),
        s.broker_running(),
    ensures
        run(s, submits(batch)) == (Pipeline {
            requests: s.requests + batch,
            submitted: s.submitted + batch,
            ..s
        }),
    decreases batch.len(),
{
    let ops = submits(batch);
    if batch.len() == 0 {
        assert(s.requests + batch =~= s.requests);
        assert(s.submitted + batch =~= s.submitted);
    } else {
        let next = s.step(ops.first());
        assert(ops.first() == Op::Submit(batch.first()));
        assert(ops.drop_first() =~= submits(batch.drop_first()));
        assert(next.foreground == s.foreground);
        lemma_submits_queue(next, batch.drop_first());
        assert(next.requests + batch.drop_first() =~= s.requests + batch);
        assert(next.submitted + batch.drop_first() =~= s.submitted + batch);
    }
}

/// However the two sides take turns, no message is lost, doubled or
/// reordered on its way, and none appears from nowhere.
///
/// After every run from the start: the requests that the broker has taken
/// out are the first of those submitted, in the order of the submits, and as
/// long as the broker has lost nothing the others are exactly what is queued.
/// The responses that the broker has sent are the first of those that the
/// requests it took out call for, in the order of the requests, so there is
/// no response without its request before it. The responses that the
/// foreground has taken out are the first of those sent, and while it holds
/// its receiver the others are exactly what is queued. The flag is what the
/// last response taken out says, or what it was at the start.
pub proof fn law_order_is_kept(show_extra_label: bool, ops: Seq<Op>)
    ensures
        ({
            let s = run(Pipeline::start(show_extra_label), ops);
            &&& s.inv()
            &&& s.delivered.is_prefix_of(s.submitted)
            &&& s.intact() ==> s.submitted == s.delivered + s.requests
            &&& s.emitted.is_prefix_of(responses_to(s.delivered))
            &&& s.applied.is_prefix_of(s.emitted)
            &&& s.receiver_held ==> s.emitted == s.applied + s.responses
            &&& s.foreground.show_extra_label == if s.applied.len() == 0 {
                show_extra_label
            } else {
                s.applied.last()->new_state
            }
        }),
{
    lemma_start_inv(show_extra_label);
    lemma_run_inv(Pipeline::start(show_extra_label), ops);
    lemma_first_flag_stays(Pipeline::start(show_extra_label), ops);
}

proof fn lemma_first_flag_stays(s: Pipeline, ops: Seq<Op>)
    ensures
        run(s, ops).first_flag == s.first_flag,
    decreases ops.len(),
{
    if ops.len() > 0 {
        lemma_first_flag_stays(s.step(ops.first()), ops.drop_first());
    }
}

/// A run keeps what `law_order_is_kept` states, from wherever it starts.
pub proof fn law_run_keeps_invariant(from: Pipeline, ops: Seq<Op>)
    requires
        from.inv(),
    ensures
        run(from, ops).inv(),
{
    lemma_run_inv(from, ops);
}

/// While the request channel is open, a submit succeeds, and the request goes
/// to the back of the queue. Once the broker is gone, or the foreground has
/// given up, a submit is refused and queues nothing; the foreground itself
/// goes on, and only remembers the refusal.
pub proof fn law_submit_succeeds_while_open(s: Pipeline, request: UiEvent)
    ensures
        s.submit_outcome() is Ok <==> s.sender_held() && !s.foreground.closed()
            && s.broker_running(),
        s.submit_outcome() is Ok ==> s.submit(request) == (Pipeline {
            requests: s.requests.push(request),
            submitted: s.submitted.push(request),
            ..s
        }),
        s.submit_outcome() is Err ==> s.submit(request) == (Pipeline {
            foreground: ForegroundView { cut_off: true, ..s.foreground },
            ..s
        }),
{
}

/// Every request that was accepted reaches the broker, once and in the order
/// of the submits, if only the broker gets its turns.
///
/// From a state in which the broker has lost nothing and the foreground holds
/// its receiver, let the two sides do anything but go away. Once the broker
/// has had three turns for each request that was queued, and two more, it has
/// taken out every request that had been submitted by then, in that order,
/// whatever was submitted behind them in the meantime.
pub proof fn law_submitted_requests_reach_broker(s: Pipeline, ops: Seq<Op>)
    requires
        s.inv(),
        s.intact(),
        s.receiver_held,
        forall|i: int| 0 <= i < ops.len() ==> keeps_both_sides(#[trigger] ops[i]),
        broker_turns(ops) >= 3 * s.requests.len() + 2,
    ensures
        s.submitted.is_prefix_of(run(s, ops).delivered),
{
    let count = s.submitted.len();
    assert(s.submitted.len() == s.delivered.len() + s.requests.len());
    lemma_delivery_progress(s, ops, count);
    let t = run(s, ops);
    assert(s.submitted =~= t.delivered.subrange(0, count as int));
}

/// A batch of requests that is submitted before the broker gets a turn is
/// answered in the order of the batch.
///
/// From a state in which submits are accepted, submit `batch` with nothing in
/// between; all of it is queued behind what was there. Then let the broker
/// take its turns while the foreground does no more than look for responses.
/// Once the broker has had three turns for each queued request and two more,
/// it has taken out them all and has sent exactly the responses that they
/// call for, in their order; the foreground has taken out the first of these
/// and the rest is queued for it.
pub proof fn law_batch_answered_in_order(s: Pipeline, batch: Seq<UiEvent>, ops: Seq<Op>)
    requires
        s.inv(),
        s.intact(),
        s.sender_held(),
        s.receiver_held,
        !s.foreground.closed(),
        forall|i: int| 0 <= i < ops.len() ==> (#[trigger] ops[i]) is BrokerTurn || ops[i] is DrainOne,
        broker_turns(ops) >= 3 * (s.requests.len() + batch.len()) + 2,
    ensures
        ({
            let queued = run(s, submits(batch));
            let t = run(queued, ops);
            &&& queued.requests == s.requests + batch
            &&& queued.submitted == s.submitted + batch
            &&& queued.delivered == s.delivered
            &&& t.submitted == s.submitted + batch
            &&& t.delivered == s.submitted + batch
            &&& t.emitted == responses_to(s.submitted + batch)
            &&& t.applied + t.responses == responses_to(s.submitted + batch)
            &&& t.broker == BrokerState::Idle
        }),
{
    lemma_submits_queue(s, batch);
    let queued = run(s, submits(batch));
    lemma_run_inv(s, submits(batch));
    assert forall|i: int| 0 <= i < ops.len() implies adds_no_work(queued, #[trigger] ops[i]) by {}
    lemma_broker_settles(queued, ops);
    lemma_settled(run(queued, ops));
}

/// The responses to toggle requests: one for each, in their order, each with
/// the inverted flag of its request.
pub proof fn law_one_response_per_request(requests: Seq<UiEvent>)
    requires
        forall|i: int| 0 <= i < requests.len() ==> (#[trigger] requests[i]) is ToggleUiState,
    ensures
        responses_to(requests).len() == requests.len(),
        forall|i: int|
            0 <= i < requests.len() ==> (#[trigger] responses_to(requests)[i])
                == (UiEvent::ToggleUiStateFinished { new_state: !requests[i]->current_state }),
    decreases requests.len(),
{
    if requests.len() > 0 {
        let earlier = requests.drop_last();
        assert forall|i: int| 0 <= i < earlier.len() implies (#[trigger] earlier[i])
            is ToggleUiState by {
            assert(earlier[i] == requests[i]);
        }
        law_one_response_per_request(earlier);
        assert(requests.last() is ToggleUiState);
        assert forall|i: int| 0 <= i < requests.len() implies (#[trigger] responses_to(requests)[i])
            == (UiEvent::ToggleUiStateFinished { new_state: !requests[i]->current_state }) by {
            if i < earlier.len() {
                assert(responses_to(requests)[i] == responses_to(earlier)[i]);
                assert(earlier[i] == requests[i]);
            }
        }
    }
}

/// One look takes at most one response, however many are queued.
///
/// A look either leaves the queue and the record of what was taken out as
/// they are, or it takes the oldest queued response and applies that one to
/// the flag. It touches nothing else.
pub proof fn law_drain_one_takes_at_most_one(s: Pipeline)
    ensures
        ({
            let t = s.drain_one();
            let took = s.receiver_held && !s.foreground.drained && s.responses.len() > 0;
            &&& took ==> t.responses == s.responses.drop_first()
            &&& took ==> t.applied == s.applied.push(s.responses.first())
            &&& took ==> t.foreground == after_poll(s.foreground, Polled::Ready(s.responses.first()))
            &&& !took ==> t.responses == s.responses && t.applied == s.applied
            &&& !took ==> t.foreground.show_extra_label == s.foreground.show_extra_label
            &&& t.responses.len() + 1 >= s.responses.len()
            &&& t.applied.len() <= s.applied.len() + 1
            &&& t.requests == s.requests
            &&& t.submitted == s.submitted
            &&& t.delivered == s.delivered
            &&& t.emitted == s.emitted
            &&& t.broker == s.broker
        }),
{
}

/// Once the foreground gives up its request sender, the broker finishes what
/// is in flight and what is queued, and then ends; no request is lost.
///
/// From a state in which the broker has lost nothing and the foreground holds
/// its receiver, let the foreground hang up, and then let the two sides do
/// anything but go away. Once the broker has had three turns for each queued
/// request and three more, it has stopped; it has taken out every request
/// that was ever submitted and has sent the responses that they call for.
pub proof fn law_hang_up_ends_broker(s: Pipeline, ops: Seq<Op>)
    requires
        s.inv(),
        s.intact(),
        s.receiver_held,
        forall|i: int| 0 <= i < ops.len() ==> keeps_both_sides(#[trigger] ops[i]),
        broker_turns(ops) >= 3 * s.requests.len() + 3,
    ensures
        ({
            let t = run(s.hang_up(), ops);
            &&& t.broker == BrokerState::Stopped
            &&& t.requests.len() == 0
            &&& t.submitted == s.submitted
            &&& t.delivered == s.submitted
            &&& t.emitted == responses_to(s.submitted)
        }),
{
    let hung = s.hang_up();
    lemma_step_inv(s, Op::HangUp);
    assert(hung == s.step(Op::HangUp));
    assert forall|i: int| 0 <= i < ops.len() implies adds_no_work(hung, #[trigger] ops[i]) by {
        assert(keeps_both_sides(ops[i]));
    }
    lemma_broker_settles(hung, ops);
    lemma_settled(run(hung, ops));
}

/// A broker that has ended does nothing more: whatever happens afterwards, it
/// takes out no request and sends no response.
pub proof fn law_ended_broker_does_nothing(s: Pipeline, ops: Seq<Op>)
    requires
        !s.broker_running(),
    ensures
        !run(s, ops).broker_running(),
        run(s, ops).broker == s.broker,
        run(s, ops).delivered == s.delivered,
        run(s, ops).emitted == s.emitted,
    decreases ops.len(),
{
    if ops.len() > 0 {
        law_ended_broker_does_nothing(s.step(ops.first()), ops.drop_first());
    }
}

} // verus!
