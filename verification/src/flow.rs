//! The two invocations as state machines. Each step takes what has happened
//! and says what is to be done next; whoever drives the machine queries the
//! store and posts the messages, one at a time, and reports back.

use crate::dispatch::{
    announcements, checker, cmd_me_handler, lookup_reply, message_views, responder, response_to,
    Dispatch, DispatchView, Dropped,
};
use crate::event::{text_or_empty, CallbackEnvelope, EventError};
use crate::messaging::{OutboundMessage, OutboundMessageView};
use crate::records::{
    decoded_rows, on_date, row_faults, row_views, Attribute, AttributeView, RecordError,
};
use vstd::prelude::*;

verus! {

/// Why an invocation failed.
#[derive(Clone, Copy, Debug, PartialEq, Eq, Structural)]
pub enum Failure {
    /// The callback could not be read.
    MalformedEvent(EventError),
    /// The row stored for the sender could not be read.
    MalformedRecord(RecordError),
    /// The store did not answer the query.
    StoreUnavailable,
    /// A message could not be delivered.
    DeliveryFailed,
    /// Something was reported that the machine was not waiting for.
    OutOfTurn,
}

/// How an invocation ended.
#[derive(Clone, Copy, Debug, PartialEq, Eq, Structural)]
pub enum Outcome {
    /// The event was passed over: no reply, no error.
    Dropped(Dropped),
    /// The reply to a command was delivered.
    Replied,
    /// Every announcement of the day was delivered; `malformed` rows were
    /// passed over.
    Scanned { malformed: usize },
    /// The invocation failed.
    Failed(Failure),
}

/// What has happened.
#[derive(Debug, PartialEq, Eq)]
pub enum Event {
    /// A callback has arrived.
    Callback(CallbackEnvelope),
    /// The daily trigger has fired, on the given month and day.
    Trigger { month: u32, day: u32 },
    /// The store has answered the query with these rows.
    Rows(Vec<Vec<Attribute>>),
    /// The store has failed to answer the query.
    StoreUnavailable,
    /// The message has been delivered.
    Delivered,
    /// The message could not be delivered.
    DeliveryFailed,
}

pub enum EventView {
    Callback { user_agent: Seq<char>, body: Seq<char> },
    Trigger { month: u32, day: u32 },
    Rows(Seq<Seq<AttributeView>>),
    StoreUnavailable,
    Delivered,
    DeliveryFailed,
}

impl View for Event {
    type V = EventView;

    open spec fn view(&self) -> EventView {
        match self {
            Event::Callback(envelope) => EventView::Callback {
                user_agent: text_or_empty(envelope.user_agent),
                body: text_or_empty(envelope.body),
            },
            Event::Trigger { month, day } => EventView::Trigger { month: *month, day: *day },
            Event::Rows(rows) => EventView::Rows(row_views(rows@)),
            Event::StoreUnavailable => EventView::StoreUnavailable,
            Event::Delivered => EventView::Delivered,
            Event::DeliveryFailed => EventView::DeliveryFailed,
        }
    }
}

/// What is to be done next.
#[derive(Debug, PartialEq, Eq)]
pub enum Action {
    /// The store is to be asked for the row of this identity.
    QueryByIdentity { sender: u64 },
    /// The store is to be asked for the rows of this month and day.
    QueryByDate { month: u32, day: u32 },
    /// The message is to be posted.
    Send(OutboundMessage),
    /// Nothing more: the invocation is over.
    Finish(Outcome),
}

pub enum ActionView {
    QueryByIdentity { sender: nat },
    QueryByDate { month: u32, day: u32 },
    Send(OutboundMessageView),
    Finish(Outcome),
}

impl View for Action {
    type V = ActionView;

    open spec fn view(&self) -> ActionView {
        match self {
            Action::QueryByIdentity { sender } => ActionView::QueryByIdentity {
                sender: *sender as nat,
            },
            Action::QueryByDate { month, day } => ActionView::QueryByDate {
                month: *month,
                day: *day,
            },
            Action::Send(message) => ActionView::Send(message@),
            Action::Finish(outcome) => ActionView::Finish(*outcome),
        }
    }
}

/// Where the answer to a callback stands.
#[derive(Clone, Copy, Debug, PartialEq, Eq, Structural)]
pub enum ResponderState {
    /// No callback has arrived yet.
    Idle,
    /// The store has been asked for the birthday of `sender`.
    AwaitingRows { sender: u64 },
    /// The reply is on its way.
    AwaitingDelivery,
    /// The invocation is over.
    Done,
}

/// The step of the responder. A callback is answered with at most one
/// message. A failure of the store or of the delivery ends the invocation:
/// nothing is tried again and nothing is sent in its place.
pub open spec fn responder_next(state: ResponderState, event: EventView) -> (
    ResponderState,
    ActionView,
) {
    match (state, event) {
        (ResponderState::Idle, EventView::Callback { user_agent, body }) => match response_to(
            user_agent,
            body,
        ) {
            Ok(DispatchView::Dropped(why)) => (
                ResponderState::Done,
                ActionView::Finish(Outcome::Dropped(why)),
            ),
            Ok(DispatchView::Reply(message)) => (
                ResponderState::AwaitingDelivery,
                ActionView::Send(message),
            ),
            Ok(DispatchView::Lookup { sender }) => (
                ResponderState::AwaitingRows { sender: sender as u64 },
                ActionView::QueryByIdentity { sender },
            ),
            Err(e) => (
                ResponderState::Done,
                ActionView::Finish(Outcome::Failed(Failure::MalformedEvent(e))),
            ),
        },
        (ResponderState::AwaitingRows { sender }, EventView::Rows(rows)) => match lookup_reply(
            rows,
            sender as nat,
        ) {
            Ok(message) => (ResponderState::AwaitingDelivery, ActionView::Send(message)),
            Err(e) => (
                ResponderState::Done,
                ActionView::Finish(Outcome::Failed(Failure::MalformedRecord(e))),
            ),
        },
        (ResponderState::AwaitingRows { .. }, EventView::StoreUnavailable) => (
            ResponderState::Done,
            ActionView::Finish(Outcome::Failed(Failure::StoreUnavailable)),
        ),
        (ResponderState::AwaitingDelivery, EventView::Delivered) => (
            ResponderState::Done,
            ActionView::Finish(Outcome::Replied),
        ),
        (ResponderState::AwaitingDelivery, EventView::DeliveryFailed) => (
            ResponderState::Done,
            ActionView::Finish(Outcome::Failed(Failure::DeliveryFailed)),
        ),
        _ => (ResponderState::Done, ActionView::Finish(Outcome::Failed(Failure::OutOfTurn))),
    }
}

/// Once the responder has sent a message or has finished, it sends nothing
/// more, whatever is reported to it: one callback gets at most one reply.
pub proof fn lemma_responder_replies_once(state: ResponderState, event: EventView)
    requires
        state == ResponderState::AwaitingDelivery || state == ResponderState::Done,
    ensures
        responder_next(state, event).0 == ResponderState::Done,
        responder_next(state, event).1 is Finish,
{
}

/// The responder asks the store only for the sender of the command, and only
/// once: what the store answers is replied to or ends the invocation.
pub proof fn lemma_responder_queries_once(state: ResponderState, event: EventView)
    ensures
        responder_next(state, event).1 matches ActionView::QueryByIdentity { sender } ==> {
            &&& state == ResponderState::Idle
            &&& responder_next(state, event).0 == ResponderState::AwaitingRows {
                sender: sender as u64,
            }
        },
        state is AwaitingRows ==> !(responder_next(state, event).1 is QueryByIdentity),
        !(responder_next(state, event).1 is QueryByDate),
{
}

/// Takes one step of the responder.
pub fn responder_step(state: ResponderState, event: Event) -> (next: (ResponderState, Action))
    ensures
        (next.0, next.1@) == responder_next(state, event@),
{
    match (state, event) {
        (ResponderState::Idle, Event::Callback(envelope)) => match responder(&envelope) {
            Ok(Dispatch::Dropped(why)) => (
                ResponderState::Done,
                Action::Finish(Outcome::Dropped(why)),
            ),
            Ok(Dispatch::Reply(message)) => (ResponderState::AwaitingDelivery, Action::Send(message)),
            Ok(Dispatch::Lookup { sender }) => (
                ResponderState::AwaitingRows { sender },
                Action::QueryByIdentity { sender },
            ),
            Err(e) => (
                ResponderState::Done,
                Action::Finish(Outcome::Failed(Failure::MalformedEvent(e))),
            ),
        },
        (ResponderState::AwaitingRows { sender }, Event::Rows(rows)) => match cmd_me_handler(
            sender,
            &rows,
        ) {
            Ok(message) => (ResponderState::AwaitingDelivery, Action::Send(message)),
            Err(e) => (
                ResponderState::Done,
                Action::Finish(Outcome::Failed(Failure::MalformedRecord(e))),
            ),
        },
        (ResponderState::AwaitingRows { .. }, Event::StoreUnavailable) => (
            ResponderState::Done,
            Action::Finish(Outcome::Failed(Failure::StoreUnavailable)),
        ),
        (ResponderState::AwaitingDelivery, Event::Delivered) => (
            ResponderState::Done,
            Action::Finish(Outcome::Replied),
        ),
        (ResponderState::AwaitingDelivery, Event::DeliveryFailed) => (
            ResponderState::Done,
            Action::Finish(Outcome::Failed(Failure::DeliveryFailed)),
        ),
        _ => (ResponderState::Done, Action::Finish(Outcome::Failed(Failure::OutOfTurn))),
    }
}

/// Where the scan of the day stands.
#[derive(Debug, PartialEq, Eq)]
pub enum CheckerState {
    /// The trigger has not fired yet.
    Idle,
    /// The store has been asked for the rows of this month and day.
    AwaitingRows { month: u32, day: u32 },
    /// An announcement is on its way; `pending` are those still to be sent
    /// after it, `undelivered` says whether a delivery has failed so far, and
    /// `malformed` is the number of rows that were passed over.
    Sending { pending: Vec<OutboundMessage>, undelivered: bool, malformed: usize },
    /// The invocation is over.
    Done,
}

pub enum CheckerStateView {
    Idle,
    AwaitingRows { month: u32, day: u32 },
    Sending { pending: Seq<OutboundMessageView>, undelivered: bool, malformed: usize },
    Done,
}

impl View for CheckerState {
    type V = CheckerStateView;

    open spec fn view(&self) -> CheckerStateView {
        match self {
            CheckerState::Idle => CheckerStateView::Idle,
            CheckerState::AwaitingRows { month, day } => CheckerStateView::AwaitingRows {
                month: *month,
                day: *day,
            },
            CheckerState::Sending { pending, undelivered, malformed } => CheckerStateView::Sending {
                pending: message_views(pending@),
                undelivered: *undelivered,
                malformed: *malformed,
            },
            CheckerState::Done => CheckerStateView::Done,
        }
    }
}

/// How a scan ends once nothing is left to send.
pub open spec fn scan_outcome(undelivered: bool, malformed: usize) -> Outcome {
    if undelivered {
        Outcome::Failed(Failure::DeliveryFailed)
    } else {
        Outcome::Scanned { malformed }
    }
}

/// What follows once the fate of one announcement is known: the next of the
/// pending ones is sent, or the scan ends.
pub open spec fn send_next(
    pending: Seq<OutboundMessageView>,
    undelivered: bool,
    malformed: usize,
) -> (CheckerStateView, ActionView) {
    if pending.len() == 0 {
        (CheckerStateView::Done, ActionView::Finish(scan_outcome(undelivered, malformed)))
    } else {
        (
            CheckerStateView::Sending { pending: pending.drop_first(), undelivered, malformed },
            ActionView::Send(pending[0]),
        )
    }
}

/// The step of the scan. The announcements of the day are sent one after the
/// other, each only when the fate of the one before is known; a delivery that
/// fails does not stop those that follow, and fails the invocation at its
/// end. A day without birthdays sends nothing.
pub open spec fn checker_next(state: CheckerStateView, event: EventView) -> (
    CheckerStateView,
    ActionView,
) {
    match (state, event) {
        (CheckerStateView::Idle, EventView::Trigger { month, day }) => (
            CheckerStateView::AwaitingRows { month, day },
            ActionView::QueryByDate { month, day },
        ),
        (CheckerStateView::AwaitingRows { month, day }, EventView::Rows(rows)) => send_next(
            announcements(on_date(decoded_rows(rows), month, day)),
            false,
            row_faults(rows).len() as usize,
        ),
        (CheckerStateView::AwaitingRows { .. }, EventView::StoreUnavailable) => (
            CheckerStateView::Done,
            ActionView::Finish(Outcome::Failed(Failure::StoreUnavailable)),
        ),
        (
            CheckerStateView::Sending { pending, undelivered, malformed },
            EventView::Delivered,
        ) => send_next(pending, undelivered, malformed),
        (
            CheckerStateView::Sending { pending, undelivered, malformed },
            EventView::DeliveryFailed,
        ) => send_next(pending, true, malformed),
        _ => (CheckerStateView::Done, ActionView::Finish(Outcome::Failed(Failure::OutOfTurn))),
    }
}

/// While announcements are on their way, each report of a delivery, failed
/// or not, leads to the next pending announcement; none is skipped and none
/// is sent twice.
pub proof fn lemma_checker_sends_each(
    pending: Seq<OutboundMessageView>,
    undelivered: bool,
    malformed: usize,
    delivered: bool,
)
    requires
        pending.len() > 0,
    ensures
        ({
            let state = CheckerStateView::Sending { pending, undelivered, malformed };
            let event = if delivered {
                EventView::Delivered
            } else {
                EventView::DeliveryFailed
            };
            &&& checker_next(state, event).1 == ActionView::Send(pending[0])
            &&& checker_next(state, event).0 == CheckerStateView::Sending {
                pending: pending.drop_first(),
                undelivered: undelivered || !delivered,
                malformed,
            }
        }),
{
}

/// A scan whose store returns no birthday of the day sends nothing.
pub proof fn lemma_checker_sends_nothing_on_an_empty_day(
    month: u32,
    day: u32,
    rows: Seq<Seq<AttributeView>>,
)
    requires
        on_date(decoded_rows(rows), month, day).len() == 0,
    ensures
        checker_next(CheckerStateView::AwaitingRows { month, day }, EventView::Rows(rows)).1
            is Finish,
        checker_next(CheckerStateView::AwaitingRows { month, day }, EventView::Rows(rows)).0
            == CheckerStateView::Done,
{
}

/// Sends the first of the pending announcements, or ends the scan.
fn checker_send_next(pending: Vec<OutboundMessage>, undelivered: bool, malformed: usize) -> (next: (
    CheckerState,
    Action,
))
    ensures
        (next.0@, next.1@) == send_next(message_views(pending@), undelivered, malformed),
{
    let mut pending = pending;
    if pending.len() == 0 {
        let outcome = if undelivered {
            Outcome::Failed(Failure::DeliveryFailed)
        } else {
            Outcome::Scanned { malformed }
        };
        (CheckerState::Done, Action::Finish(outcome))
    } else {
        let ghost before = message_views(pending@);
        let first = pending.remove(0);
        assert(message_views(pending@) =~= before.drop_first());
        (CheckerState::Sending { pending, undelivered, malformed }, Action::Send(first))
    }
}

/// Takes one step of the scan.
pub fn checker_step(state: CheckerState, event: Event) -> (next: (CheckerState, Action))
    ensures
        (next.0@, next.1@) == checker_next(state@, event@),
{
    match (state, event) {
        (CheckerState::Idle, Event::Trigger { month, day }) => (
            CheckerState::AwaitingRows { month, day },
            Action::QueryByDate { month, day },
        ),
        (CheckerState::AwaitingRows { month, day }, Event::Rows(rows)) => {
            let plan = checker(&rows, month, day);
            checker_send_next(plan.announcements, false, plan.malformed.len())
        },
        (CheckerState::AwaitingRows { .. }, Event::StoreUnavailable) => (
            CheckerState::Done,
            Action::Finish(Outcome::Failed(Failure::StoreUnavailable)),
        ),
        (CheckerState::Sending { pending, undelivered, malformed }, Event::Delivered) => {
            checker_send_next(pending, undelivered, malformed)
        },
        (CheckerState::Sending { pending, undelivered: _, malformed }, Event::DeliveryFailed) => {
            checker_send_next(pending, true, malformed)
        },
        _ => (CheckerState::Done, Action::Finish(Outcome::Failed(Failure::OutOfTurn))),
    }
}

} // verus!
