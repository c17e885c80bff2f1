//! The polling-consumer state machine.
//!
//! A consumer continuously long-polls one resolved queue, logs every
//! received message, and acknowledges (deletes) each message that carries a
//! receipt token. The machine is driven by the surrounding runtime: it
//! performs the actions `step` asks for (print a line, sleep, issue a
//! receive, issue a delete, stop) and hands the outcome of each service
//! call back as the next event.
//!
//! Policy, as `step_spec` states it: a transient receive error is logged
//! and retried after a fixed backoff, forever; an empty receive loops
//! straight back into the next receive; received messages are logged and
//! acknowledged one by one, in order; a failed delete stops the consumer
//! with that error.

use vstd::prelude::*;

use crate::message::Message;
use crate::message::MessageModel;
use crate::message::log_line;
use crate::message::log_line_text;
use crate::resolver::QueueHandle;

verus! {

/// Fixed delay, in seconds, before the receive is retried after a
/// transient error.
pub const BACKOFF_SECS: u64 = 3;

/// Wait window, in seconds, requested on every receive call: the service
/// maximum, so that polls are long polls.
pub const MAX_WAIT_SECS: i32 = 20;

/// How many messages every receive call asks for: the service's batch
/// limit.
pub const MAX_BATCH_MESSAGES: i32 = 10;

/// The parameters of every long-poll receive call a consumer issues.
#[derive(Debug, PartialEq, Eq)]
pub struct ReceivePlan {
    /// The resolved location of the queue polled.
    pub queue_url: String,
    /// How long the service may hold the call open before returning empty.
    pub wait_time_seconds: i32,
    /// How many messages the call asks for at most.
    pub max_messages: i32,
    /// Pattern selecting which message attributes to return: all of them.
    pub attribute_pattern: String,
}

/// Builds the receive-call parameters for a resolved queue: poll that
/// queue, wait the full long-poll window, ask for a full batch, request
/// every attribute.
pub fn receive_plan(handle: &QueueHandle) -> (r: ReceivePlan)
    ensures
        r.queue_url@ == handle.url@,
        r.wait_time_seconds == MAX_WAIT_SECS,
        r.max_messages == MAX_BATCH_MESSAGES,
        r.attribute_pattern@ == ".*"@,
{
    ReceivePlan {
        queue_url: handle.url.clone(),
        wait_time_seconds: MAX_WAIT_SECS,
        max_messages: MAX_BATCH_MESSAGES,
        attribute_pattern: String::from_str(".*"),
    }
}

/// What the consumer is waiting on.
#[derive(Debug, PartialEq, Eq)]
pub enum ConsumerState {
    /// A receive call is to be answered.
    Polling,
    /// A delete call is to be answered; the messages not yet handled from
    /// the same receive batch wait in order.
    Acknowledging { pending: Vec<Message> },
    /// A delete call failed; the consumer is finished and polls no more.
    Stopped { error: String },
}

/// Model of a consumer state.
pub ghost enum StateModel {
    Polling,
    Acknowledging(Seq<MessageModel>),
    Stopped(Seq<char>),
}

impl View for ConsumerState {
    type V = StateModel;

    open spec fn view(&self) -> StateModel {
        match self {
            ConsumerState::Polling => StateModel::Polling,
            ConsumerState::Acknowledging { pending } => StateModel::Acknowledging(
                crate::message::msgs_model(pending@),
            ),
            ConsumerState::Stopped { error } => StateModel::Stopped(error@),
        }
    }
}

/// The outcome of the service call the consumer was waiting on.
#[derive(Debug, PartialEq, Eq)]
pub enum Event {
    /// The receive call returned these messages, in order (possibly none).
    ReceiveSucceeded(Vec<Message>),
    /// The receive call failed; carries the error text.
    ReceiveFailed(String),
    /// The delete call succeeded.
    DeleteSucceeded,
    /// The delete call failed; carries the error text.
    DeleteFailed(String),
}

/// Model of an event.
pub ghost enum EventModel {
    ReceiveSucceeded(Seq<MessageModel>),
    ReceiveFailed(Seq<char>),
    DeleteSucceeded,
    DeleteFailed(Seq<char>),
}

impl View for Event {
    type V = EventModel;

    open spec fn view(&self) -> EventModel {
        match self {
            Event::ReceiveSucceeded(msgs) => EventModel::ReceiveSucceeded(
                crate::message::msgs_model(msgs@),
            ),
            Event::ReceiveFailed(e) => EventModel::ReceiveFailed(e@),
            Event::DeleteSucceeded => EventModel::DeleteSucceeded,
            Event::DeleteFailed(e) => EventModel::DeleteFailed(e@),
        }
    }
}

/// One action the runtime must perform, in order, after a step.
#[derive(Debug, PartialEq, Eq)]
pub enum Action {
    /// Write this line to the output.
    Print(String),
    /// Pause for this many seconds.
    Sleep(u64),
    /// Issue the long-poll receive call on the consumer's queue.
    Receive,
    /// Issue a delete call with this receipt token.
    Delete(String),
    /// Terminate the consumer, surfacing this error.
    Stop(String),
}

/// Model of an action.
pub ghost enum ActionModel {
    Print(Seq<char>),
    Sleep(int),
    Receive,
    Delete(Seq<char>),
    Stop(Seq<char>),
}

impl View for Action {
    type V = ActionModel;

    open spec fn view(&self) -> ActionModel {
        match self {
            Action::Print(line) => ActionModel::Print(line@),
            Action::Sleep(secs) => ActionModel::Sleep(*secs as int),
            Action::Receive => ActionModel::Receive,
            Action::Delete(receipt) => ActionModel::Delete(receipt@),
            Action::Stop(e) => ActionModel::Stop(e@),
        }
    }
}

/// The models of a sequence of actions, in order.
pub open spec fn actions_model(acts: Seq<Action>) -> Seq<ActionModel> {
    acts.map_values(|a: Action| a@)
}

/// The line printed for a failed receive call.
pub open spec fn error_line_text(e: Seq<char>) -> Seq<char> {
    "ERROR: "@ + e
}

/// The line printed when a consumer starts on a queue name.
pub open spec fn startup_line_text(name: Seq<char>) -> Seq<char> {
    "Q Name: "@ + name
}

/// Builds the error line for a failed receive call.
pub fn error_line(e: &str) -> (r: String)
    ensures
        r@ == error_line_text(e@),
{
    let mut r = String::from_str("ERROR: ");
    r.append(e);
    r
}

/// Builds the line printed when a consumer starts on a queue name.
pub fn startup_line(name: &str) -> (r: String)
    ensures
        r@ == startup_line_text(name@),
{
    let mut r = String::from_str("Q Name: ");
    r.append(name);
    r
}

/// What handling a batch of still-pending messages decides: log the first
/// message; if it carries a receipt token, ask for its delete and wait,
/// the rest still pending; if not, go on to the next message. Once the
/// batch is exhausted, go straight back to polling with the next receive,
/// with no sleep.
pub open spec fn deliver_spec(pending: Seq<MessageModel>) -> (StateModel, Seq<ActionModel>)
    decreases pending.len(),
{
    if pending.len() == 0 {
        (StateModel::Polling, seq![ActionModel::Receive])
    } else {
        let log = ActionModel::Print(log_line_text(pending[0]));
        match pending[0].receipt_handle {
            Some(receipt) => (
                StateModel::Acknowledging(pending.drop_first()),
                seq![log, ActionModel::Delete(receipt)],
            ),
            None => {
                let rest = deliver_spec(pending.drop_first());
                (rest.0, seq![log] + rest.1)
            },
        }
    }
}

/// Which events a state can be answered with: a polling consumer awaits a
/// receive outcome, an acknowledging consumer awaits a delete outcome, and
/// a stopped consumer awaits nothing.
pub open spec fn accepts(state: StateModel, event: EventModel) -> bool {
    match state {
        StateModel::Polling => event is ReceiveSucceeded || event is ReceiveFailed,
        StateModel::Acknowledging(_) => event is DeleteSucceeded || event is DeleteFailed,
        StateModel::Stopped(_) => false,
    }
}

/// The consumer policy: the next state and the actions to perform, from
/// the current state and the outcome of the awaited call.
pub open spec fn step_spec(state: StateModel, event: EventModel) -> (StateModel, Seq<ActionModel>) {
    match (state, event) {
        (StateModel::Polling, EventModel::ReceiveSucceeded(msgs)) => deliver_spec(msgs),
        (StateModel::Polling, EventModel::ReceiveFailed(e)) => (
            StateModel::Polling,
            seq![
                ActionModel::Print(error_line_text(e)),
                ActionModel::Sleep(BACKOFF_SECS as int),
                ActionModel::Receive,
            ],
        ),
        (StateModel::Acknowledging(pending), EventModel::DeleteSucceeded) => deliver_spec(pending),
        (StateModel::Acknowledging(pending), EventModel::DeleteFailed(e)) => (
            StateModel::Stopped(e),
            seq![ActionModel::Stop(e)],
        ),
        _ => (state, Seq::empty()),
    }
}

/// Decides whether a state can be answered with an event, so that the
/// runtime can check before calling `step`.
pub fn accepts_event(state: &ConsumerState, event: &Event) -> (r: bool)
    ensures
        r == accepts(state@, event@),
{
    match state {
        ConsumerState::Polling => match event {
            Event::ReceiveSucceeded(_) => true,
            Event::ReceiveFailed(_) => true,
            _ => false,
        },
        ConsumerState::Acknowledging { pending: _ } => match event {
            Event::DeleteSucceeded => true,
            Event::DeleteFailed(_) => true,
            _ => false,
        },
        ConsumerState::Stopped { error: _ } => false,
    }
}

/// The state and actions a consumer begins with: immediately issue the
/// first long-poll receive.
pub fn start() -> (res: (ConsumerState, Vec<Action>))
    ensures
        res.0@ == StateModel::Polling,
        actions_model(res.1@) == seq![ActionModel::Receive],
{
    let mut actions: Vec<Action> = Vec::new();
    actions.push(Action::Receive);
    proof {
        assert(actions_model(actions@) =~= seq![ActionModel::Receive]);
    }
    (ConsumerState::Polling, actions)
}

/// Handles the still-pending messages of one receive batch, exactly as
/// `deliver_spec` states: each message is logged in order; the first one
/// carrying a receipt token has its delete issued and the consumer waits
/// for the outcome; an exhausted batch sends the consumer straight back to
/// the next receive.
#[verifier::loop_isolation(false)]
fn deliver(pending: Vec<Message>) -> (res: (ConsumerState, Vec<Action>))
    ensures
        res.0@ == deliver_spec(crate::message::msgs_model(pending@)).0,
        actions_model(res.1@) == deliver_spec(crate::message::msgs_model(pending@)).1,
{
    let ghost orig: Seq<MessageModel> = crate::message::msgs_model(pending@);
    let mut rest = pending;
    let mut actions: Vec<Action> = Vec::new();
    loop
        invariant
            deliver_spec(orig).0 == deliver_spec(crate::message::msgs_model(rest@)).0,
            deliver_spec(orig).1 == actions_model(actions@) + deliver_spec(
                crate::message::msgs_model(rest@),
            ).1,
        decreases rest.len(),
    {
        let ghost before: Seq<MessageModel> = crate::message::msgs_model(rest@);
        if rest.len() == 0 {
            actions.push(Action::Receive);
            proof {
                assert(actions_model(actions@) =~= deliver_spec(orig).1);
            }
            return (ConsumerState::Polling, actions);
        }
        let m = rest.remove(0);
        proof {
            assert(before[0] == m@);
            assert(crate::message::msgs_model(rest@) =~= before.drop_first());
        }
        let line = log_line(&m);
        actions.push(Action::Print(line));
        match m.receipt_handle {
            Some(receipt) => {
                actions.push(Action::Delete(receipt));
                proof {
                    assert(actions_model(actions@) =~= deliver_spec(orig).1);
                    assert(crate::message::msgs_model(rest@) =~= before.drop_first());
                }
                return (ConsumerState::Acknowledging { pending: rest }, actions);
            },
            None => {
                proof {
                    assert(actions_model(actions@) + deliver_spec(before.drop_first()).1
                        =~= deliver_spec(orig).1);
                }
            },
        }
    }
}

/// One step of the consumer: from the current state and the outcome of the
/// awaited service call, the next state and the actions to perform, in
/// order, exactly as `step_spec` states.
pub fn step(state: ConsumerState, event: Event) -> (res: (ConsumerState, Vec<Action>))
    requires
        accepts(state@, event@),
    ensures
        res.0@ == step_spec(state@, event@).0,
        actions_model(res.1@) == step_spec(state@, event@).1,
{
    match (state, event) {
        (ConsumerState::Polling, Event::ReceiveSucceeded(msgs)) => deliver(msgs),
        (ConsumerState::Polling, Event::ReceiveFailed(e)) => {
            let mut actions: Vec<Action> = Vec::new();
            actions.push(Action::Print(error_line(e.as_str())));
            actions.push(Action::Sleep(BACKOFF_SECS));
            actions.push(Action::Receive);
            proof {
                assert(actions_model(actions@) =~= step_spec(
                    StateModel::Polling,
                    EventModel::ReceiveFailed(e@),
                ).1);
            }
            (ConsumerState::Polling, actions)
        },
        (ConsumerState::Acknowledging { pending }, Event::DeleteSucceeded) => deliver(pending),
        (ConsumerState::Acknowledging { pending: _ }, Event::DeleteFailed(e)) => {
            let mut actions: Vec<Action> = Vec::new();
            actions.push(Action::Stop(e.clone()));
            proof {
                assert(actions_model(actions@) =~= seq![ActionModel::Stop(e@)]);
            }
            (ConsumerState::Stopped { error: e }, actions)
        },
        _ => {
            proof {
                assert(false);
            }
            (ConsumerState::Polling, Vec::new())
        },
    }
}

/// After handling part of a batch, the messages still pending are strictly
/// fewer than the batch handled.
pub proof fn lemma_deliver_spec_shrinks(pending: Seq<MessageModel>)
    ensures
        deliver_spec(pending).0 matches StateModel::Acknowledging(rest) ==> rest.len()
            < pending.len(),
    decreases pending.len(),
{
    if pending.len() > 0 && pending[0].receipt_handle is None {
        lemma_deliver_spec_shrinks(pending.drop_first());
    }
}

/// The actions of one whole batch, on the run in which every delete call
/// succeeds: the actions decided on the receive outcome, then the actions
/// of each further step on a successful delete, until the consumer is
/// polling again. `step_spec` produces exactly these actions on such a
/// run, since a step on `DeleteSucceeded` delivers the pending messages.
pub open spec fn batch_trace(pending: Seq<MessageModel>) -> Seq<ActionModel>
    decreases pending.len(),
    via batch_trace_decreases
{
    let next = deliver_spec(pending);
    match next.0 {
        StateModel::Acknowledging(rest) => next.1 + batch_trace(rest),
        _ => next.1,
    }
}

#[via_fn]
proof fn batch_trace_decreases(pending: Seq<MessageModel>) {
    lemma_deliver_spec_shrinks(pending);
}

/// The lines printed by a sequence of actions, in order.
pub open spec fn prints_of(acts: Seq<ActionModel>) -> Seq<Seq<char>>
    decreases acts.len(),
{
    if acts.len() == 0 {
        Seq::empty()
    } else {
        let rest = prints_of(acts.drop_first());
        match acts[0] {
            ActionModel::Print(line) => seq![line] + rest,
            _ => rest,
        }
    }
}

/// The receipt tokens whose delete calls a sequence of actions issues, in
/// order.
pub open spec fn deletes_of(acts: Seq<ActionModel>) -> Seq<Seq<char>>
    decreases acts.len(),
{
    if acts.len() == 0 {
        Seq::empty()
    } else {
        let rest = deletes_of(acts.drop_first());
        match acts[0] {
            ActionModel::Delete(receipt) => seq![receipt] + rest,
            _ => rest,
        }
    }
}

/// The receipt tokens a batch of messages carries, in order.
pub open spec fn receipts_of(msgs: Seq<MessageModel>) -> Seq<Seq<char>>
    decreases msgs.len(),
{
    if msgs.len() == 0 {
        Seq::empty()
    } else {
        let rest = receipts_of(msgs.drop_first());
        match msgs[0].receipt_handle {
            Some(receipt) => seq![receipt] + rest,
            None => rest,
        }
    }
}

proof fn lemma_prints_of_concat(a: Seq<ActionModel>, b: Seq<ActionModel>)
    ensures
        prints_of(a + b) == prints_of(a) + prints_of(b),
    decreases a.len(),
{
    if a.len() == 0 {
        assert(a + b =~= b);
        assert(prints_of(a) + prints_of(b) =~= prints_of(b));
    } else {
        assert((a + b).drop_first() =~= a.drop_first() + b);
        lemma_prints_of_concat(a.drop_first(), b);
        assert(prints_of(a + b) =~= prints_of(a) + prints_of(b));
    }
}

proof fn lemma_deletes_of_concat(a: Seq<ActionModel>, b: Seq<ActionModel>)
    ensures
        deletes_of(a + b) == deletes_of(a) + deletes_of(b),
    decreases a.len(),
{
    if a.len() == 0 {
        assert(a + b =~= b);
        assert(deletes_of(a) + deletes_of(b) =~= deletes_of(b));
    } else {
        assert((a + b).drop_first() =~= a.drop_first() + b);
        lemma_deletes_of_concat(a.drop_first(), b);
        assert(deletes_of(a + b) =~= deletes_of(a) + deletes_of(b));
    }
}

/// A batch of N messages, on the run in which every delete succeeds, has
/// exactly N lines printed — the log line of each message, in the order
/// the messages were returned — and exactly one delete call attempted per
/// message carrying a receipt token, in the same order.
pub proof fn lemma_batch_logs_and_deletes_in_order(msgs: Seq<MessageModel>)
    ensures
        prints_of(batch_trace(msgs)) == msgs.map_values(|m: MessageModel| log_line_text(m)),
        deletes_of(batch_trace(msgs)) == receipts_of(msgs),
    decreases msgs.len(),
{
    reveal_with_fuel(prints_of, 4);
    reveal_with_fuel(deletes_of, 4);
    reveal_with_fuel(receipts_of, 2);
    let lines = msgs.map_values(|m: MessageModel| log_line_text(m));
    if msgs.len() == 0 {
        assert(prints_of(batch_trace(msgs)) =~= lines);
        assert(deletes_of(batch_trace(msgs)) =~= receipts_of(msgs));
    } else {
        let rest = msgs.drop_first();
        let rest_lines = rest.map_values(|m: MessageModel| log_line_text(m));
        lemma_batch_logs_and_deletes_in_order(rest);
        assert(lines =~= seq![log_line_text(msgs[0])] + rest_lines);
        match msgs[0].receipt_handle {
            Some(receipt) => {
                let head = seq![
                    ActionModel::Print(log_line_text(msgs[0])),
                    ActionModel::Delete(receipt),
                ];
                assert(batch_trace(msgs) == head + batch_trace(rest));
                lemma_prints_of_concat(head, batch_trace(rest));
                lemma_deletes_of_concat(head, batch_trace(rest));
                assert(prints_of(head) =~= seq![log_line_text(msgs[0])]);
                assert(deletes_of(head) =~= seq![receipt]);
                assert(prints_of(batch_trace(msgs)) =~= lines);
                assert(deletes_of(batch_trace(msgs)) =~= receipts_of(msgs));
            },
            None => {
                let head = seq![ActionModel::Print(log_line_text(msgs[0]))];
                let next = deliver_spec(rest);
                assert(deliver_spec(msgs).1 == head + next.1);
                match next.0 {
                    StateModel::Acknowledging(after) => {
                        assert(batch_trace(msgs) == (head + next.1) + batch_trace(after));
                        assert(batch_trace(rest) == next.1 + batch_trace(after));
                        assert(batch_trace(msgs) =~= head + batch_trace(rest));
                    },
                    _ => {
                        assert(batch_trace(msgs) == head + next.1);
                        assert(batch_trace(rest) == next.1);
                    },
                }
                lemma_prints_of_concat(head, batch_trace(rest));
                lemma_deletes_of_concat(head, batch_trace(rest));
                assert(prints_of(head) =~= seq![log_line_text(msgs[0])]);
                assert(deletes_of(head) =~= Seq::<Seq<char>>::empty());
                assert(prints_of(batch_trace(msgs)) =~= lines);
                assert(deletes_of(batch_trace(msgs)) =~= receipts_of(msgs));
            },
        }
    }
}

/// `batch_trace` is exactly what the step function does on such a run:
/// the step on the receive outcome decides the batch's first actions, and
/// each step on a successful delete delivers the messages still pending.
pub proof fn lemma_batch_trace_is_step_actions(msgs: Seq<MessageModel>)
    ensures
        step_spec(StateModel::Polling, EventModel::ReceiveSucceeded(msgs)) == deliver_spec(msgs),
        forall|rest: Seq<MessageModel>|
            #[trigger] step_spec(StateModel::Acknowledging(rest), EventModel::DeleteSucceeded)
                == deliver_spec(rest),
        batch_trace(msgs) == (match deliver_spec(msgs).0 {
            StateModel::Acknowledging(rest) => deliver_spec(msgs).1 + batch_trace(rest),
            _ => deliver_spec(msgs).1,
        }),
{
}

/// A receive cycle that returns no messages is followed by exactly one
/// further receive, immediately: the consumer stays polling and the only
/// action decided is the next receive call — no sleep, no other delay.
pub proof fn lemma_empty_receive_polls_again(msgs: Seq<MessageModel>)
    requires
        msgs.len() == 0,
    ensures
        step_spec(StateModel::Polling, EventModel::ReceiveSucceeded(msgs)).0
            == StateModel::Polling,
        step_spec(StateModel::Polling, EventModel::ReceiveSucceeded(msgs)).1
            == seq![ActionModel::Receive],
{
}

/// Every transient receive error, whatever its text, is retried: the
/// consumer logs the error, sleeps exactly the fixed backoff interval,
/// issues the next receive, and is polling again — so no receive error
/// ever stops it, however many occur.
pub proof fn lemma_receive_error_backs_off_and_retries(e: Seq<char>)
    ensures
        step_spec(StateModel::Polling, EventModel::ReceiveFailed(e)).0 == StateModel::Polling,
        step_spec(StateModel::Polling, EventModel::ReceiveFailed(e)).1 == seq![
            ActionModel::Print(error_line_text(e)),
            ActionModel::Sleep(BACKOFF_SECS as int),
            ActionModel::Receive,
        ],
{
}

/// A failed delete call stops the consumer: the step surfaces the error
/// as its only action — in particular it issues no further receive — and
/// the stopped consumer accepts no further event, so no receive ever
/// follows on that queue.
pub proof fn lemma_delete_failure_stops_consumer(pending: Seq<MessageModel>, e: Seq<char>)
    ensures
        step_spec(StateModel::Acknowledging(pending), EventModel::DeleteFailed(e)).0
            == StateModel::Stopped(e),
        step_spec(StateModel::Acknowledging(pending), EventModel::DeleteFailed(e)).1
            == seq![ActionModel::Stop(e)],
        forall|event: EventModel| !accepts(StateModel::Stopped(e), event),
{
}

} // verus!
