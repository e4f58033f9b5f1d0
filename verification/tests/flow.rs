use birthday_bot::dispatch::Dropped;
use birthday_bot::event::{CallbackEnvelope, EventError, EventField};
use birthday_bot::flow::{
    checker_step, responder_step, Action, CheckerState, Event, Failure, Outcome, ResponderState,
};
use birthday_bot::messaging::OutboundMessage;
use birthday_bot::fault::FieldFault;
use birthday_bot::records::{
    Attribute, AttributeValue, BirthdayRecord, BirthdaysDBClient, RecordError,
    RecordField,
};

const NO_BIRTHDAY: &str = "Uh-oh, you don't have a registered birthday! Contact your local birthday-bot mechanic to have them register one for you!";

fn callback(agent: &str, sender_type: &str, sender_id: &str, text: &str) -> Event {
    let mut body = serde_json::Map::new();
    body.insert("text".to_string(), serde_json::Value::String(text.to_string()));
    body.insert("name".to_string(), serde_json::Value::String("Alex".to_string()));
    body.insert("sender_id".to_string(), serde_json::Value::String(sender_id.to_string()));
    body.insert("sender_type".to_string(), serde_json::Value::String(sender_type.to_string()));
    Event::Callback(CallbackEnvelope {
        user_agent: Some(agent.to_string()),
        body: Some(serde_json::Value::Object(body).to_string()),
    })
}

fn row_of(record: &BirthdayRecord) -> Vec<Attribute> {
    vec![
        Attribute {
            name: "user_id".to_string(),
            value: AttributeValue::N(record.identity().to_string()),
        },
        Attribute {
            name: "fullname".to_string(),
            value: AttributeValue::S(record.full_name().clone()),
        },
        Attribute {
            name: "month_num".to_string(),
            value: AttributeValue::N(record.month_num().to_string()),
        },
        Attribute {
            name: "day_num".to_string(),
            value: AttributeValue::N(record.day_num().to_string()),
        },
    ]
}

fn record(id: u64, name: &str, month: u8, day: u8) -> BirthdayRecord {
    BirthdayRecord::new(id, name.to_string(), month, day).unwrap()
}

/// Drives the responder against a table and a webhook that fails the sends
/// whose number, counted from 0, is listed.
fn run_responder(
    table: &BirthdaysDBClient,
    first: Event,
    failing_sends: &[usize],
) -> (Vec<OutboundMessage>, Outcome) {
    let mut sent = Vec::new();
    let mut attempts = 0;
    let mut state = ResponderState::Idle;
    let mut event = first;
    loop {
        let (next, action) = responder_step(state, event);
        state = next;
        event = match action {
            Action::QueryByIdentity { sender } => Event::Rows(
                table.get_birthday_by_user_id(sender).iter().map(row_of).collect(),
            ),
            Action::QueryByDate { .. } => panic!("the responder asked for a date"),
            Action::Send(message) => {
                attempts += 1;
                if failing_sends.contains(&(attempts - 1)) {
                    Event::DeliveryFailed
                } else {
                    sent.push(message);
                    Event::Delivered
                }
            }
            Action::Finish(outcome) => {
                assert_eq!(state, ResponderState::Done);
                return (sent, outcome);
            }
        };
    }
}

/// Drives the scan against a table and a webhook that fails the sends whose
/// number, counted from 0, is listed. Returns what was delivered, how many
/// sends were tried, and the outcome.
fn run_checker(
    table: &BirthdaysDBClient,
    month: u32,
    day: u32,
    failing_sends: &[usize],
) -> (Vec<OutboundMessage>, usize, Outcome) {
    let mut sent = Vec::new();
    let mut attempts = 0;
    let mut state = CheckerState::Idle;
    let mut event = Event::Trigger { month, day };
    loop {
        let (next, action) = checker_step(state, event);
        state = next;
        event = match action {
            Action::QueryByDate { month, day } => {
                Event::Rows(table.get_todays_birthdays(month, day).iter().map(row_of).collect())
            }
            Action::QueryByIdentity { .. } => panic!("the scan asked for an identity"),
            Action::Send(message) => {
                attempts += 1;
                if failing_sends.contains(&(attempts - 1)) {
                    Event::DeliveryFailed
                } else {
                    sent.push(message);
                    Event::Delivered
                }
            }
            Action::Finish(outcome) => {
                assert_eq!(state, CheckerState::Done);
                return (sent, attempts, outcome);
            }
        };
    }
}

fn empty_table() -> BirthdaysDBClient {
    BirthdaysDBClient::new(Vec::new())
}

#[test]
fn end_to_end_scan_on_the_birthday() {
    let table = BirthdaysDBClient::new(vec![record(1, "Alex", 6, 15)]);
    let (sent, attempts, outcome) = run_checker(&table, 6, 15, &[]);
    assert_eq!(outcome, Outcome::Scanned { malformed: 0 });
    assert_eq!(attempts, 1);
    assert_eq!(sent.len(), 1);
    assert_eq!(sent[0].mention_id, 1);
    assert!(sent[0].text.contains("Alex's birthday"));
    assert_eq!(
        &sent[0].text[sent[0].mention_start..sent[0].mention_start + sent[0].mention_len],
        "Alex"
    );
}

#[test]
fn end_to_end_scan_on_another_day() {
    let table = BirthdaysDBClient::new(vec![record(1, "Alex", 6, 15)]);
    let (sent, attempts, outcome) = run_checker(&table, 6, 14, &[]);
    assert_eq!(outcome, Outcome::Scanned { malformed: 0 });
    assert_eq!(attempts, 0);
    assert_eq!(sent, Vec::new());
}

#[test]
fn end_to_end_greeting() {
    let (sent, outcome) =
        run_responder(&empty_table(), callback("GroupMeBotNotifier", "user", "42", "!bd hi"), &[]);
    assert_eq!(outcome, Outcome::Replied);
    assert_eq!(sent.len(), 1);
    assert_eq!(sent[0].text, "Hello, Alex!");
    assert_eq!(&sent[0].text[sent[0].mention_start..][..sent[0].mention_len], "Alex");
    assert_eq!(sent[0].mention_id, 42);
}

#[test]
fn end_to_end_bot_sender() {
    for text in ["!bd hi", "!bd me", "!bd ?", "hello"] {
        let (sent, outcome) =
            run_responder(&empty_table(), callback("GroupMeBotNotifier", "bot", "42", text), &[]);
        assert_eq!(outcome, Outcome::Dropped(Dropped::NonHumanSender));
        assert_eq!(sent, Vec::new());
    }
}

#[test]
fn end_to_end_self_lookup_without_a_record() {
    let table = BirthdaysDBClient::new(vec![record(1, "Alex", 6, 15)]);
    let (sent, outcome) =
        run_responder(&table, callback("GroupMeBotNotifier", "user", "42", "!bd me"), &[]);
    assert_eq!(outcome, Outcome::Replied);
    assert_eq!(sent.len(), 1);
    assert_eq!(sent[0].text, NO_BIRTHDAY);
    assert_eq!(sent[0].mention_id, 42);
}

#[test]
fn end_to_end_self_lookup_with_a_record() {
    let table = BirthdaysDBClient::new(vec![record(1, "Sam", 1, 2), record(42, "Alex", 6, 15)]);
    let (sent, outcome) =
        run_responder(&table, callback("GroupMeBotNotifier", "user", "42", "  !BD me  "), &[]);
    assert_eq!(outcome, Outcome::Replied);
    assert_eq!(sent.len(), 1);
    assert!(sent[0].text.starts_with("Your birthday is registered as June 15th!\n"));
    assert_eq!(sent[0].mention_id, 42);
}

#[test]
fn end_to_end_unknown_command() {
    let (sent, outcome) = run_responder(
        &empty_table(),
        callback("GroupMeBotNotifier", "user", "42", "!bd sing a song"),
        &[],
    );
    assert_eq!(outcome, Outcome::Replied);
    assert_eq!(sent.len(), 1);
    assert!(sent[0].text.starts_with("Uh-oh, looks like you were trying to ask me something"));
}

#[test]
fn end_to_end_drops_send_nothing() {
    let (sent, outcome) =
        run_responder(&empty_table(), callback("SomeoneElse", "user", "42", "!bd hi"), &[]);
    assert_eq!((sent, outcome), (Vec::new(), Outcome::Dropped(Dropped::UntrustedSource)));
    for text in ["hi all", "!bdhi", "!bdx me"] {
        let (sent, outcome) =
            run_responder(&empty_table(), callback("GroupMeBotNotifier", "user", "42", text), &[]);
        assert_eq!((sent, outcome), (Vec::new(), Outcome::Dropped(Dropped::NotACommand)));
    }
}

#[test]
fn malformed_event_fails_without_a_reply() {
    let (sent, outcome) =
        run_responder(&empty_table(), callback("GroupMeBotNotifier", "user", "me", "!bd hi"), &[]);
    assert_eq!(sent, Vec::new());
    assert_eq!(
        outcome,
        Outcome::Failed(Failure::MalformedEvent(EventError::Field {
            field: EventField::SenderId,
            fault: FieldFault::Unparsable
        }))
    );
    let no_body = Event::Callback(CallbackEnvelope {
        user_agent: Some("GroupMeBotNotifier".to_string()),
        body: None,
    });
    let (sent, outcome) = run_responder(&empty_table(), no_body, &[]);
    assert_eq!(sent, Vec::new());
    assert_eq!(outcome, Outcome::Failed(Failure::MalformedEvent(EventError::MalformedBody)));
}

#[test]
fn failed_delivery_of_a_reply_is_not_tried_again() {
    let (sent, outcome) = run_responder(
        &empty_table(),
        callback("GroupMeBotNotifier", "user", "42", "!bd hi"),
        &[0],
    );
    assert_eq!(sent, Vec::new());
    assert_eq!(outcome, Outcome::Failed(Failure::DeliveryFailed));
}

#[test]
fn responder_steps_one_by_one() {
    let (state, action) = responder_step(
        ResponderState::Idle,
        callback("GroupMeBotNotifier", "user", "42", "!bd me"),
    );
    assert_eq!(state, ResponderState::AwaitingRows { sender: 42 });
    assert_eq!(action, Action::QueryByIdentity { sender: 42 });
    let (state, action) = responder_step(state, Event::Rows(Vec::new()));
    assert_eq!(state, ResponderState::AwaitingDelivery);
    match action {
        Action::Send(m) => assert_eq!(m.text, NO_BIRTHDAY),
        other => panic!("{:?}", other),
    }
    let (state, action) = responder_step(state, Event::Delivered);
    assert_eq!(state, ResponderState::Done);
    assert_eq!(action, Action::Finish(Outcome::Replied));
}

#[test]
fn responder_fails_when_the_store_does() {
    let (state, action) =
        responder_step(ResponderState::AwaitingRows { sender: 42 }, Event::StoreUnavailable);
    assert_eq!(state, ResponderState::Done);
    assert_eq!(action, Action::Finish(Outcome::Failed(Failure::StoreUnavailable)));
}

#[test]
fn responder_fails_on_a_malformed_record() {
    let rows = vec![vec![Attribute {
        name: "user_id".to_string(),
        value: AttributeValue::S("42".to_string()),
    }]];
    let (state, action) =
        responder_step(ResponderState::AwaitingRows { sender: 42 }, Event::Rows(rows));
    assert_eq!(state, ResponderState::Done);
    assert_eq!(
        action,
        Action::Finish(Outcome::Failed(Failure::MalformedRecord(RecordError {
            field: RecordField::MonthNum,
            fault: FieldFault::Absent
        })))
    );
}

#[test]
fn end_to_end_self_lookup_on_a_row_without_a_name() {
    let callback = callback("GroupMeBotNotifier", "user", "42", "!bd me");
    let (state, action) = responder_step(ResponderState::Idle, callback);
    assert_eq!(action, Action::QueryByIdentity { sender: 42 });
    let number = |name: &str, text: &str| Attribute {
        name: name.to_string(),
        value: AttributeValue::N(text.to_string()),
    };
    let rows = vec![vec![number("user_id", "42"), number("month_num", "2"), number("day_num", "12")]];
    let (state, action) = responder_step(state, Event::Rows(rows));
    assert_eq!(state, ResponderState::AwaitingDelivery);
    assert_eq!(
        action,
        Action::Send(OutboundMessage {
            text: "Your birthday is registered as February 12th!\nIf that isn't right, contact your local birthday-bot mechanic to have it corrected!".to_string(),
            mention_start: 0,
            mention_len: 4,
            mention_id: 42,
        })
    );
    assert_eq!(
        responder_step(state, Event::Delivered),
        (ResponderState::Done, Action::Finish(Outcome::Replied))
    );
}

#[test]
fn responder_rejects_what_it_does_not_wait_for() {
    let out_of_turn = || Action::Finish(Outcome::Failed(Failure::OutOfTurn));
    let cases = [
        (ResponderState::Idle, Event::Delivered),
        (ResponderState::Idle, Event::Rows(Vec::new())),
        (ResponderState::Idle, Event::Trigger { month: 1, day: 1 }),
        (ResponderState::AwaitingRows { sender: 1 }, Event::Delivered),
        (ResponderState::AwaitingRows { sender: 1 }, Event::Trigger { month: 1, day: 1 }),
        (ResponderState::AwaitingDelivery, Event::Rows(Vec::new())),
        (ResponderState::AwaitingDelivery, Event::StoreUnavailable),
        (ResponderState::Done, Event::Delivered),
        (ResponderState::Done, Event::DeliveryFailed),
        (ResponderState::Done, callback("GroupMeBotNotifier", "user", "42", "!bd hi")),
    ];
    for (state, event) in cases {
        assert_eq!(responder_step(state, event), (ResponderState::Done, out_of_turn()));
    }
}

#[test]
fn scan_sends_in_stored_order() {
    let table = BirthdaysDBClient::new(vec![
        record(1, "Alex", 6, 15),
        record(2, "Sam", 6, 16),
        record(3, "Kim", 6, 15),
        record(4, "Pat", 6, 15),
    ]);
    let (sent, attempts, outcome) = run_checker(&table, 6, 15, &[]);
    assert_eq!(outcome, Outcome::Scanned { malformed: 0 });
    assert_eq!(attempts, 3);
    let ids: Vec<u64> = sent.iter().map(|m| m.mention_id).collect();
    assert_eq!(ids, vec![1, 3, 4]);
}

#[test]
fn scan_goes_on_after_a_failed_delivery() {
    let table = BirthdaysDBClient::new(vec![
        record(1, "Alex", 6, 15),
        record(3, "Kim", 6, 15),
        record(4, "Pat", 6, 15),
    ]);
    for failing in [vec![0], vec![1], vec![2], vec![0, 2], vec![0, 1, 2]] {
        let (sent, attempts, outcome) = run_checker(&table, 6, 15, &failing);
        assert_eq!(outcome, Outcome::Failed(Failure::DeliveryFailed));
        assert_eq!(attempts, 3);
        let ids: Vec<u64> = sent.iter().map(|m| m.mention_id).collect();
        let expected: Vec<u64> = [1u64, 3, 4]
            .iter()
            .enumerate()
            .filter(|(i, _)| !failing.contains(i))
            .map(|(_, id)| *id)
            .collect();
        assert_eq!(ids, expected);
    }
}

#[test]
fn scan_steps_one_by_one() {
    let (state, action) = checker_step(CheckerState::Idle, Event::Trigger { month: 6, day: 15 });
    assert_eq!(state, CheckerState::AwaitingRows { month: 6, day: 15 });
    assert_eq!(action, Action::QueryByDate { month: 6, day: 15 });
    let rows = vec![
        row_of(&record(1, "Alex", 6, 15)),
        Vec::new(),
        row_of(&record(2, "Sam", 6, 15)),
        row_of(&record(3, "Kim", 7, 15)),
    ];
    let (state, action) = checker_step(state, Event::Rows(rows));
    match &state {
        CheckerState::Sending { pending, undelivered, malformed } => {
            assert_eq!(pending.len(), 1);
            assert_eq!(pending[0].mention_id, 2);
            assert!(!undelivered);
            assert_eq!(*malformed, 1);
        }
        other => panic!("{:?}", other),
    }
    match &action {
        Action::Send(m) => assert_eq!(m.mention_id, 1),
        other => panic!("{:?}", other),
    }
    let (state, action) = checker_step(state, Event::Delivered);
    match &action {
        Action::Send(m) => assert_eq!(m.mention_id, 2),
        other => panic!("{:?}", other),
    }
    let (state, action) = checker_step(state, Event::Delivered);
    assert_eq!(state, CheckerState::Done);
    assert_eq!(action, Action::Finish(Outcome::Scanned { malformed: 1 }));
}

#[test]
fn scan_fails_when_the_store_does() {
    let (state, action) =
        checker_step(CheckerState::AwaitingRows { month: 6, day: 15 }, Event::StoreUnavailable);
    assert_eq!(state, CheckerState::Done);
    assert_eq!(action, Action::Finish(Outcome::Failed(Failure::StoreUnavailable)));
}

#[test]
fn scan_rejects_what_it_does_not_wait_for() {
    let out_of_turn = || Action::Finish(Outcome::Failed(Failure::OutOfTurn));
    let sending = || CheckerState::Sending { pending: Vec::new(), undelivered: false, malformed: 0 };
    let cases = [
        (CheckerState::Idle, Event::Delivered),
        (CheckerState::Idle, Event::Rows(Vec::new())),
        (CheckerState::Idle, callback("GroupMeBotNotifier", "user", "42", "!bd hi")),
        (CheckerState::AwaitingRows { month: 1, day: 1 }, Event::Delivered),
        (CheckerState::AwaitingRows { month: 1, day: 1 }, Event::Trigger { month: 1, day: 1 }),
        (sending(), Event::Rows(Vec::new())),
        (sending(), Event::StoreUnavailable),
        (sending(), Event::Trigger { month: 1, day: 1 }),
        (CheckerState::Done, Event::Trigger { month: 1, day: 1 }),
        (CheckerState::Done, Event::Delivered),
    ];
    for (state, event) in cases {
        assert_eq!(checker_step(state, event), (CheckerState::Done, out_of_turn()));
    }
}
