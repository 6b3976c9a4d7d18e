use bandwidth_prepay::accumulator::Accumulator;
use bandwidth_prepay::pubkey::Pubkey;
use bandwidth_prepay::pubsub::{
    notification_update, subscribe_step, subscription_number, PubSubError, PubSubRequest,
    SubscribeState, WsEvent,
};
use bandwidth_prepay::session::{
    business_logic, next_phase, process_data, teardown_plan, MeterAction, NewConnParams,
    PubsubUpdate, SessionEvent, SessionPhase, TeardownPlan,
};

fn params(fee_interval: u16) -> NewConnParams {
    NewConnParams {
        contract_pubkey: Pubkey::filled(1),
        destination: "127.0.0.1:1234".to_string(),
        fee_interval,
    }
}

#[test]
fn metering_within_interval_accumulates() {
    let p = params(10_000);
    let mut acc = Accumulator::new(1000, 0);
    for step in 0..5u64 {
        let action = process_data(&p, &mut acc, None, 80, step * 100);
        assert_eq!(action, MeterAction::Continue);
    }
    assert_eq!(acc.amount_charged, 400);
    assert_eq!(acc.total_data_amount, 400);
    assert_eq!(acc.initiator_fund, 1000);
}

#[test]
fn zero_interval_settles_every_step() {
    let p = params(0);
    let mut acc = Accumulator::new(1000, 0);
    let mut provider = 0u64;
    let reads = [80u64, 120, 40, 10];
    for (i, n) in reads.iter().enumerate() {
        let now = 1 + i as u64;
        match process_data(&p, &mut acc, None, *n, now) {
            MeterAction::Settle(amount) => {
                assert_eq!(amount, *n);
                provider += amount;
                acc.settle(now);
            }
            other => panic!("unexpected action {:?}", other),
        }
    }
    assert_eq!(provider, 250);
    assert_eq!(acc.amount_charged, 0);
    assert_eq!(acc.initiator_fund, 750);
    assert_eq!(acc.total_data_amount, 250);
}

#[test]
fn failed_hand_off_keeps_the_charge() {
    let p = params(0);
    let mut acc = Accumulator::new(1000, 0);
    assert_eq!(process_data(&p, &mut acc, None, 30, 5), MeterAction::Settle(30));
    assert_eq!(process_data(&p, &mut acc, None, 20, 6), MeterAction::Settle(50));
    acc.settle(6);
    assert_eq!(acc.amount_charged, 0);
    assert_eq!(acc.initiator_fund, 950);
    assert_eq!(acc.now, 6);
}

#[test]
fn exhaustion_stops_the_session() {
    let p = params(1000);
    let mut acc = Accumulator::new(150, 0);
    let action = process_data(&p, &mut acc, None, 200, 1);
    assert_eq!(action, MeterAction::Exhausted { charge: 0, refund: true });
    assert_eq!(acc.amount_charged, 0);
    assert_eq!(acc.total_data_amount, 0);
    let plan = teardown_plan(&acc, true);
    assert_eq!(plan, TeardownPlan { spend: None, refund: true });
}

#[test]
fn exhaustion_after_charges() {
    let p = params(1000);
    let mut acc = Accumulator::new(150, 0);
    assert_eq!(process_data(&p, &mut acc, None, 100, 1), MeterAction::Continue);
    let action = process_data(&p, &mut acc, None, 60, 2);
    assert_eq!(action, MeterAction::Exhausted { charge: 100, refund: true });
    let plan = teardown_plan(&acc, true);
    assert_eq!(plan, TeardownPlan { spend: Some(100), refund: true });
    assert_eq!(teardown_plan(&acc, false), TeardownPlan { spend: None, refund: false });
}

#[test]
fn exact_budget_is_admitted() {
    let p = params(1000);
    let mut acc = Accumulator::new(150, 0);
    assert_eq!(process_data(&p, &mut acc, None, 150, 1), MeterAction::Continue);
    let action = process_data(&p, &mut acc, None, 1, 2);
    assert_eq!(action, MeterAction::Exhausted { charge: 150, refund: false });
}

#[test]
fn balance_notification_updates_fund() {
    let p = params(1000);
    let mut acc = Accumulator::new(100, 0);
    let action = process_data(&p, &mut acc, Some(PubsubUpdate::Balance(500)), 300, 1);
    assert_eq!(action, MeterAction::Continue);
    assert_eq!(acc.initiator_fund, 500);
    let action = process_data(&p, &mut acc, Some(PubsubUpdate::Disconnected), 100, 2);
    assert_eq!(action, MeterAction::Continue);
    assert_eq!(acc.initiator_fund, 500);
    assert_eq!(acc.amount_charged, 400);
}

#[test]
fn interval_must_be_exceeded() {
    let p = params(100);
    let mut acc = Accumulator::new(1000, 50);
    assert_eq!(process_data(&p, &mut acc, None, 1, 150), MeterAction::Continue);
    assert_eq!(process_data(&p, &mut acc, None, 1, 151), MeterAction::Settle(2));
    assert_eq!(process_data(&p, &mut acc, None, 1, 10), MeterAction::Continue);
}

#[test]
fn books_balance_over_a_session() {
    let p = params(0);
    let start = 1000u64;
    let mut acc = Accumulator::new(start, 0);
    let mut settled = 0u64;
    for (i, n) in [100u64, 200, 50].iter().enumerate() {
        if let MeterAction::Settle(amount) = process_data(&p, &mut acc, None, *n, 1 + i as u64) {
            settled += amount;
            acc.settle(1 + i as u64);
        }
        assert!(acc.amount_charged <= acc.initiator_fund);
        assert_eq!(settled + acc.initiator_fund, start);
    }
}

#[test]
fn business_logic_is_one_lamport_per_byte() {
    assert_eq!(business_logic(0), 0);
    assert_eq!(business_logic(1234), 1234);
}

#[test]
fn accumulator_default_is_zero() {
    let acc = Accumulator::default();
    assert_eq!(acc, Accumulator { total_data_amount: 0, amount_charged: 0, initiator_fund: 0, now: 0 });
}

#[test]
fn phases_pass_through_draining() {
    let mut phase = SessionPhase::Validating;
    for (event, expected) in [
        (SessionEvent::Validated, SessionPhase::Connecting),
        (SessionEvent::Connected, SessionPhase::Accepting),
        (SessionEvent::Accepted, SessionPhase::Forwarding),
        (SessionEvent::Drained, SessionPhase::Forwarding),
        (SessionEvent::Ended, SessionPhase::Draining),
        (SessionEvent::Ended, SessionPhase::Draining),
        (SessionEvent::Drained, SessionPhase::Terminated),
        (SessionEvent::Validated, SessionPhase::Terminated),
    ] {
        phase = next_phase(phase, event);
        assert_eq!(phase, expected);
    }
    assert_eq!(next_phase(SessionPhase::Connecting, SessionEvent::Ended), SessionPhase::Draining);
}

#[test]
fn test_pubsub_processor() {
    let json = r#"{"jsonrpc":"2.0","method":"accountNotification","params":{"result":{"data":[],"executable":false,"lamports":10000,"owner":[0,0,0,0,0,0,0,0,0,0,0,0,0,0,0,0,0,0,0,0,0,0,0,0,0,0,0,0,0,0,0,0],"rent_epoch":0},"subscription":1}}"#;
    assert_eq!(notification_update(json), PubsubUpdate::Balance(10_000));
}

#[test]
fn notification_without_balance_is_ignored() {
    let json = r#"{"jsonrpc":"2.0","method":"accountNotification","params":{"result":{"data":[],"executable":false,"rent_epoch":0},"subscription":1}}"#;
    assert_eq!(notification_update(json), PubsubUpdate::Other);
    assert_eq!(notification_update("not json"), PubsubUpdate::Other);
}

#[test]
fn subscription_request_text() {
    let text = PubSubRequest::Account.build_request_json(1, Some("9ecPa9Eq"));
    assert_eq!(text, r#"{"jsonrpc":"2.0","id":1,"method":"accountSubscribe","params":["9ecPa9Eq"]}"#);
    let text = PubSubRequest::Signature.build_request_json(4021, None);
    assert_eq!(text, r#"{"jsonrpc":"2.0","id":4021,"method":"signatureSubscribe"}"#);
    let text = PubSubRequest::Program.build_request_json(0, Some("a\"b"));
    assert_eq!(text, r#"{"jsonrpc":"2.0","id":0,"method":"programSubscribe","params":["a\"b"]}"#);
    let v: serde_json::Value = serde_json::from_str(&text).unwrap();
    assert_eq!(v["params"][0].as_str(), Some("a\"b"));
}

#[test]
fn subscription_reply_carries_a_number() {
    assert_eq!(subscription_number(r#"{"jsonrpc":"2.0","result":7,"id":1}"#), Ok(7));
    assert_eq!(
        subscription_number(r#"{"jsonrpc":"2.0","error":{"code":-32602},"id":1}"#),
        Err(PubSubError::SubscriptionFailed)
    );
    assert_eq!(subscription_number(r#"{"result":"7"}"#), Err(PubSubError::SubscriptionFailed));
}

#[test]
fn pubsub_error_messages() {
    assert_eq!(
        PubSubError::ConnectionFailed.to_string(),
        "The PubSub connection could not be established"
    );
    assert_eq!(
        PubSubError::ConnectionDropped(Some(1000), "bye".to_string()).to_string(),
        "Connection dropped with code 1000 and message bye"
    );
    assert_eq!(PubSubError::ConnectionDropped(None, "gone".to_string()).to_string(), "gone");
    assert_eq!(PubSubError::SubscriptionFailed.to_string(), "The PubSub subscription failed");
    assert_eq!(PubSubError::DoubleConnect.to_string(), "Recieved a second WS connection");
}

#[test]
fn subscription_follows_open_request_reply() {
    let s = subscribe_step(SubscribeState::AwaitingConnect, &WsEvent::Connect).unwrap();
    assert_eq!(s, SubscribeState::AwaitingReply);
    let reply = WsEvent::Message(r#"{"jsonrpc":"2.0","result":3,"id":1}"#.to_string());
    let s = subscribe_step(s, &reply).unwrap();
    assert_eq!(s, SubscribeState::Subscribed(3));
    let note = WsEvent::Message("{}".to_string());
    assert_eq!(subscribe_step(s, &note), Ok(SubscribeState::Subscribed(3)));
    assert_eq!(subscribe_step(s, &WsEvent::Connect), Err(PubSubError::DoubleConnect));
    assert_eq!(
        subscribe_step(SubscribeState::AwaitingConnect, &note),
        Err(PubSubError::ConnectionFailed)
    );
    assert_eq!(
        subscribe_step(SubscribeState::AwaitingReply, &note),
        Err(PubSubError::SubscriptionFailed)
    );
    assert_eq!(
        subscribe_step(SubscribeState::AwaitingReply, &WsEvent::Disconnect(Some(1000), "x".to_string())),
        Err(PubSubError::ConnectionDropped(
            None,
            "Connection dropped while subscribing to pubsub".to_string()
        ))
    );
}
