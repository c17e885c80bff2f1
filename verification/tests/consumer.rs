use sqs_forwarder::consumer::Action;
use sqs_forwarder::consumer::ConsumerState;
use sqs_forwarder::consumer::Event;
use sqs_forwarder::consumer::BACKOFF_SECS;
use sqs_forwarder::consumer::MAX_BATCH_MESSAGES;
use sqs_forwarder::consumer::MAX_WAIT_SECS;
use sqs_forwarder::consumer::accepts_event;
use sqs_forwarder::consumer::error_line;
use sqs_forwarder::consumer::receive_plan;
use sqs_forwarder::consumer::start;
use sqs_forwarder::consumer::startup_line;
use sqs_forwarder::consumer::step;
use sqs_forwarder::message::Message;
use sqs_forwarder::message::MessageAttribute;
use sqs_forwarder::resolver::QueueHandle;

fn plain_message(id: &str, body: &str, receipt: &str) -> Message {
    Message {
        message_id: Some(id.to_string()),
        body: Some(body.to_string()),
        message_attributes: None,
        receipt_handle: Some(receipt.to_string()),
    }
}

#[test]
fn start_polls_immediately() {
    let (state, actions) = start();
    assert_eq!(state, ConsumerState::Polling);
    assert_eq!(actions, vec![Action::Receive]);
}

#[test]
fn startup_line_names_the_queue() {
    assert_eq!(startup_line("orders"), "Q Name: orders");
}

#[test]
fn receive_plan_uses_long_polling_and_all_attributes() {
    let handle = QueueHandle { url: "https://queue.example/123/orders".to_string() };
    let plan = receive_plan(&handle);
    assert_eq!(plan.queue_url, "https://queue.example/123/orders");
    assert_eq!(plan.wait_time_seconds, MAX_WAIT_SECS);
    assert_eq!(plan.wait_time_seconds, 20);
    assert_eq!(plan.max_messages, MAX_BATCH_MESSAGES);
    assert_eq!(plan.max_messages, 10);
    assert_eq!(plan.attribute_pattern, ".*");
}

#[test]
fn empty_receive_loops_straight_back() {
    let (state, actions) = step(ConsumerState::Polling, Event::ReceiveSucceeded(Vec::new()));
    assert_eq!(state, ConsumerState::Polling);
    assert_eq!(actions, vec![Action::Receive]);
}

#[test]
fn one_message_is_logged_then_deleted_then_loop_continues() {
    let msg = plain_message("m1", "hello", "r1");
    let (state, actions) = step(ConsumerState::Polling, Event::ReceiveSucceeded(vec![msg]));
    assert_eq!(state, ConsumerState::Acknowledging { pending: Vec::new() });
    assert_eq!(
        actions,
        vec![
            Action::Print(
                "message_id: Some(\"m1\"), message_attributes: None, body: Some(\"hello\")"
                    .to_string()
            ),
            Action::Delete("r1".to_string()),
        ]
    );
    let (state, actions) = step(state, Event::DeleteSucceeded);
    assert_eq!(state, ConsumerState::Polling);
    assert_eq!(actions, vec![Action::Receive]);
}

#[test]
fn batch_is_logged_and_deleted_in_order() {
    let batch = vec![
        plain_message("m1", "first", "r1"),
        plain_message("m2", "second", "r2"),
        plain_message("m3", "third", "r3"),
    ];
    let mut printed: Vec<String> = Vec::new();
    let mut deleted: Vec<String> = Vec::new();
    let mut state = ConsumerState::Polling;
    let mut event = Event::ReceiveSucceeded(batch);
    loop {
        let (next, actions) = step(state, event);
        state = next;
        let mut delete_issued = false;
        for action in actions {
            match action {
                Action::Print(line) => printed.push(line),
                Action::Delete(receipt) => {
                    deleted.push(receipt);
                    delete_issued = true;
                },
                Action::Receive => {},
                other => panic!("unexpected action {other:?}"),
            }
        }
        if !delete_issued {
            break;
        }
        event = Event::DeleteSucceeded;
    }
    assert_eq!(state, ConsumerState::Polling);
    assert_eq!(
        printed,
        vec![
            "message_id: Some(\"m1\"), message_attributes: None, body: Some(\"first\")",
            "message_id: Some(\"m2\"), message_attributes: None, body: Some(\"second\")",
            "message_id: Some(\"m3\"), message_attributes: None, body: Some(\"third\")",
        ]
    );
    assert_eq!(deleted, vec!["r1", "r2", "r3"]);
}

#[test]
fn message_without_receipt_is_logged_but_not_deleted() {
    let mut no_receipt = plain_message("m2", "middle", "unused");
    no_receipt.receipt_handle = None;
    let batch = vec![plain_message("m1", "first", "r1"), no_receipt];
    let (state, actions) = step(ConsumerState::Polling, Event::ReceiveSucceeded(batch));
    // The first message is logged and its delete issued; the second waits.
    assert_eq!(actions.len(), 2);
    assert_eq!(actions[1], Action::Delete("r1".to_string()));
    // After the successful delete the second message is logged, no delete
    // is issued for it, and the consumer goes straight back to polling.
    let (state, actions) = step(state, Event::DeleteSucceeded);
    assert_eq!(state, ConsumerState::Polling);
    assert_eq!(
        actions,
        vec![
            Action::Print(
                "message_id: Some(\"m2\"), message_attributes: None, body: Some(\"middle\")"
                    .to_string()
            ),
            Action::Receive,
        ]
    );
}

#[test]
fn receive_error_is_logged_backed_off_and_retried() {
    let (state, actions) = step(
        ConsumerState::Polling,
        Event::ReceiveFailed("connection reset".to_string()),
    );
    assert_eq!(state, ConsumerState::Polling);
    assert_eq!(
        actions,
        vec![
            Action::Print("ERROR: connection reset".to_string()),
            Action::Sleep(BACKOFF_SECS),
            Action::Receive,
        ]
    );
}

#[test]
fn backoff_is_exactly_three_seconds() {
    assert_eq!(BACKOFF_SECS, 3);
    let (_, actions) = step(
        ConsumerState::Polling,
        Event::ReceiveFailed("throttled".to_string()),
    );
    assert_eq!(
        actions,
        vec![
            Action::Print("ERROR: throttled".to_string()),
            Action::Sleep(3),
            Action::Receive,
        ]
    );
}

#[test]
fn delete_failure_stops_the_consumer() {
    let pending = vec![plain_message("m9", "later", "r9")];
    let (state, actions) = step(
        ConsumerState::Acknowledging { pending },
        Event::DeleteFailed("access denied".to_string()),
    );
    assert_eq!(state, ConsumerState::Stopped { error: "access denied".to_string() });
    assert_eq!(actions, vec![Action::Stop("access denied".to_string())]);
    // A stopped consumer accepts no further event: no receive can follow.
    assert!(!accepts_event(&state, &Event::ReceiveSucceeded(Vec::new())));
    assert!(!accepts_event(&state, &Event::ReceiveFailed("x".to_string())));
    assert!(!accepts_event(&state, &Event::DeleteSucceeded));
    assert!(!accepts_event(&state, &Event::DeleteFailed("x".to_string())));
}

#[test]
fn accepts_event_matches_the_awaited_call() {
    let polling = ConsumerState::Polling;
    let acking = ConsumerState::Acknowledging { pending: Vec::new() };
    assert!(accepts_event(&polling, &Event::ReceiveSucceeded(Vec::new())));
    assert!(accepts_event(&polling, &Event::ReceiveFailed("e".to_string())));
    assert!(!accepts_event(&polling, &Event::DeleteSucceeded));
    assert!(!accepts_event(&polling, &Event::DeleteFailed("e".to_string())));
    assert!(accepts_event(&acking, &Event::DeleteSucceeded));
    assert!(accepts_event(&acking, &Event::DeleteFailed("e".to_string())));
    assert!(!accepts_event(&acking, &Event::ReceiveSucceeded(Vec::new())));
    assert!(!accepts_event(&acking, &Event::ReceiveFailed("e".to_string())));
}

#[test]
fn error_line_carries_the_error_text() {
    assert_eq!(error_line("timed out"), "ERROR: timed out");
}

#[test]
fn attributes_appear_in_the_log_line_in_order() {
    let msg = Message {
        message_id: Some("m5".to_string()),
        body: Some("payload".to_string()),
        message_attributes: Some(vec![
            MessageAttribute { name: "kind".to_string(), value: "order".to_string() },
            MessageAttribute { name: "trace".to_string(), value: "t-7".to_string() },
        ]),
        receipt_handle: Some("r5".to_string()),
    };
    let (_, actions) = step(ConsumerState::Polling, Event::ReceiveSucceeded(vec![msg]));
    assert_eq!(
        actions[0],
        Action::Print(
            "message_id: Some(\"m5\"), message_attributes: Some({\"kind\": \"order\", \"trace\": \"t-7\"}), body: Some(\"payload\")"
                .to_string()
        )
    );
}

#[test]
fn absent_parts_are_logged_as_none() {
    let msg = Message {
        message_id: None,
        body: None,
        message_attributes: None,
        receipt_handle: None,
    };
    let (state, actions) = step(ConsumerState::Polling, Event::ReceiveSucceeded(vec![msg]));
    assert_eq!(state, ConsumerState::Polling);
    assert_eq!(
        actions,
        vec![
            Action::Print("message_id: None, message_attributes: None, body: None".to_string()),
            Action::Receive,
        ]
    );
}
