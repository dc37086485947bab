use bytes::Bytes;
use object_transfer::channel::Phase;
use object_transfer::errors::{AckError, BrokerError, PubError, SubError, UnSubError};
use object_transfer::redis::errors::{
    AckError as RedisAckError, RedisFailure, SubscribeError, UnsubscribeError,
};
use object_transfer::redis::group_make::{group_create, is_group_exists, make_stream_group};
use object_transfer::redis::reply::{
    flatten_keys, AutoClaimReply, FieldValue, StreamEntry, StreamKey,
};
use object_transfer::redis::{
    Ack, PublishError, Publisher, PublisherConfig, Subscriber, SubscriberConfig,
};

fn failure(code: Option<&str>, detail: &str) -> RedisFailure {
    RedisFailure::new(code.map(|c| c.to_string()), detail.to_string())
}

fn busy_group() -> RedisFailure {
    failure(Some("BUSYGROUP"), "BUSYGROUP: Consumer Group name already exists")
}

fn entry(id: &str, data: &[u8]) -> StreamEntry {
    StreamEntry::new(
        id.to_string(),
        vec![("data".to_string(), FieldValue::BulkString(data.to_vec()))],
    )
}

fn polling(cfg: SubscriberConfig) -> Subscriber {
    let mut subscriber = Subscriber::new(cfg);
    subscriber.subscribe(Ok(())).unwrap();
    subscriber
}

fn ids(items: &[(Bytes, Ack)]) -> Vec<String> {
    items.iter().map(|(_, ack)| ack.command().id).collect()
}

fn payloads(items: &[(Bytes, Ack)]) -> Vec<Vec<u8>> {
    items.iter().map(|(payload, _)| payload.to_vec()).collect()
}

#[test]
fn group_creation_command() {
    let cmd = group_create("orders".to_string(), "billing".to_string());
    assert_eq!(cmd.stream, "orders");
    assert_eq!(cmd.group, "billing");
    assert_eq!(cmd.start_id, "$");
}

#[test]
fn existing_group_counts_as_made() {
    assert!(make_stream_group(Ok(())).is_ok());
    assert!(make_stream_group(Err(busy_group())).is_ok());
    assert!(is_group_exists(&busy_group()));
}

#[test]
fn other_failures_of_group_creation_are_handed_on() {
    let err = make_stream_group(Err(failure(Some("NOPERM"), "no permission"))).unwrap_err();
    assert_eq!(err.code.as_deref(), Some("NOPERM"));
    assert_eq!(err.detail, "no permission");
    let err = make_stream_group(Err(failure(None, "BUSYGROUP"))).unwrap_err();
    assert_eq!(err.code, None);
    assert_eq!(err.detail, "BUSYGROUP");
    assert!(make_stream_group(Err(failure(Some("busygroup"), "x"))).is_err());
    assert!(make_stream_group(Err(failure(Some("BUSYGROUPS"), "x"))).is_err());
    assert!(make_stream_group(Err(failure(Some(""), "x"))).is_err());
    assert!(!is_group_exists(&failure(None, "BUSYGROUP")));
}

#[test]
fn subscriber_defaults() {
    let subscriber = polling(SubscriberConfig::new("orders".to_string()));
    let cmd = subscriber.provision();
    assert_eq!(cmd.stream, "orders");
    assert_eq!(cmd.group, "orders");
    assert_eq!(cmd.start_id, "$");
    let poll = subscriber.next_poll().unwrap();
    let claim = poll.reclaim.unwrap();
    assert_eq!(claim.stream, "orders");
    assert_eq!(claim.group, "orders");
    assert_eq!(claim.consumer, "orders");
    assert_eq!(claim.min_idle, 30000);
    assert_eq!(claim.start, "0-0");
    assert_eq!(claim.count, 10);
    assert_eq!(poll.fresh.stream, "orders");
    assert_eq!(poll.fresh.id, ">");
    assert_eq!(poll.fresh.group, "orders");
    assert_eq!(poll.fresh.consumer, "orders");
    assert_eq!(poll.fresh.count, 10);
    assert_eq!(poll.fresh.block, 5000);
    let release = subscriber.release();
    assert_eq!(release.stream, "orders");
    assert_eq!(release.group, "orders");
    assert_eq!(release.consumer, "orders");
}

#[test]
fn subscriber_settings_reach_the_commands() {
    let cfg = SubscriberConfig::new("orders".to_string())
        .group_name("billing".to_string())
        .consumer_name("worker-1".to_string())
        .num_fetch(1)
        .block_time(500)
        .auto_claim(250);
    let subscriber = polling(cfg);
    let cmd = subscriber.provision();
    assert_eq!(cmd.stream, "orders");
    assert_eq!(cmd.group, "billing");
    let poll = subscriber.next_poll().unwrap();
    let claim = poll.reclaim.unwrap();
    assert_eq!(claim.stream, "orders");
    assert_eq!(claim.group, "billing");
    assert_eq!(claim.consumer, "worker-1");
    assert_eq!(claim.min_idle, 250);
    assert_eq!(claim.count, 1);
    assert_eq!(poll.fresh.stream, "orders");
    assert_eq!(poll.fresh.group, "billing");
    assert_eq!(poll.fresh.consumer, "worker-1");
    assert_eq!(poll.fresh.count, 1);
    assert_eq!(poll.fresh.block, 500);
    let release = subscriber.release();
    assert_eq!(release.stream, "orders");
    assert_eq!(release.group, "billing");
    assert_eq!(release.consumer, "worker-1");
}

#[test]
fn topic_name_can_be_replaced() {
    let cfg = SubscriberConfig::new("orders".to_string()).topic_name("invoices".to_string());
    let subscriber = polling(cfg);
    let poll = subscriber.next_poll().unwrap();
    assert_eq!(poll.fresh.stream, "invoices");
    assert_eq!(poll.fresh.group, "orders");
    assert_eq!(poll.fresh.consumer, "orders");
}

#[test]
fn subscribe_provisions_before_it_polls() {
    let mut subscriber = Subscriber::new(SubscriberConfig::new("orders".to_string()));
    assert_eq!(subscriber.phase(), Phase::Uninitialized);
    assert!(subscriber.next_poll().is_none());
    assert!(subscriber.subscribe(Ok(())).is_ok());
    assert_eq!(subscriber.phase(), Phase::Polling);
    assert!(subscriber.next_poll().is_some());
}

#[test]
fn subscribe_twice_is_no_error() {
    let mut subscriber = Subscriber::new(SubscriberConfig::new("orders".to_string()));
    assert!(subscriber.subscribe(Ok(())).is_ok());
    assert!(subscriber.subscribe(Err(busy_group())).is_ok());
    assert_eq!(subscriber.phase(), Phase::Polling);

    let mut other = Subscriber::new(SubscriberConfig::new("orders".to_string()));
    assert!(other.subscribe(Err(busy_group())).is_ok());
    assert_eq!(other.phase(), Phase::Polling);
}

#[test]
fn subscribe_fails_when_provisioning_fails() {
    let mut subscriber = Subscriber::new(SubscriberConfig::new("orders".to_string()));
    let err = subscriber.subscribe(Err(failure(Some("ERR"), "ERR: out of memory"))).unwrap_err();
    match &err {
        SubError::BrokerError(BrokerError::RedisSubscribe(SubscribeError::GroupCreation(cause))) => {
            assert_eq!(cause.code.as_deref(), Some("ERR"));
            assert_eq!(cause.detail, "ERR: out of memory");
        }
        other => panic!("unexpected error {:?}", other),
    }
    assert_eq!(err.to_string(), "Broker error: Group Creation Error: ERR: out of memory");
    assert_eq!(subscriber.phase(), Phase::Uninitialized);
    assert!(subscriber.next_poll().is_none());
}

#[test]
fn no_claim_when_the_threshold_is_zero() {
    let mut subscriber = polling(SubscriberConfig::new("orders".to_string()).auto_claim(0));
    let poll = subscriber.next_poll().unwrap();
    assert!(poll.reclaim.is_none());
    // a reply to a claim that was never sent is left aside
    let stray = AutoClaimReply {
        next_stream_id: "9-9".to_string(),
        claimed: vec![entry("1-0", b"stray")],
    };
    let fresh = vec![StreamKey { key: "orders".to_string(), ids: vec![entry("2-0", b"new")] }];
    let items = subscriber.collect(Some(Ok(stray)), Ok(fresh)).unwrap();
    assert_eq!(ids(&items), vec!["2-0"]);
    assert_eq!(payloads(&items), vec![b"new".to_vec()]);
    assert!(subscriber.next_poll().unwrap().reclaim.is_none());
    // and so is the failure of one
    let items = subscriber.collect(Some(Err(failure(None, "down"))), Ok(Vec::new())).unwrap();
    assert!(items.is_empty());
}

#[test]
fn claimed_entries_come_before_new_ones() {
    let mut subscriber =
        polling(SubscriberConfig::new("orders".to_string()).group_name("billing".to_string()));
    let claim = AutoClaimReply {
        next_stream_id: "0-0".to_string(),
        claimed: vec![entry("5-0", b"stalled-a"), entry("6-0", b"stalled-b")],
    };
    let fresh = vec![
        StreamKey { key: "orders".to_string(), ids: vec![entry("7-0", b"new-a")] },
        StreamKey { key: "orders".to_string(), ids: vec![entry("8-0", b"new-b"), entry("9-0", b"new-c")] },
    ];
    let items = subscriber.collect(Some(Ok(claim)), Ok(fresh)).unwrap();
    assert_eq!(ids(&items), vec!["5-0", "6-0", "7-0", "8-0", "9-0"]);
    assert_eq!(
        payloads(&items),
        vec![
            b"stalled-a".to_vec(),
            b"stalled-b".to_vec(),
            b"new-a".to_vec(),
            b"new-b".to_vec(),
            b"new-c".to_vec()
        ]
    );
    for (_, ack) in items.iter() {
        let cmd = ack.command();
        assert_eq!(cmd.stream, "orders");
        assert_eq!(cmd.group, "billing");
    }
}

#[test]
fn pending_entries_of_a_crashed_consumer_are_yielded_by_the_first_poll() {
    let cfg = SubscriberConfig::new("orders".to_string())
        .consumer_name("second".to_string())
        .auto_claim(100);
    let mut subscriber = Subscriber::new(cfg);
    subscriber.subscribe(Err(busy_group())).unwrap();
    let poll = subscriber.next_poll().unwrap();
    let claim = poll.reclaim.unwrap();
    assert_eq!(claim.consumer, "second");
    assert_eq!(claim.start, "0-0");
    assert_eq!(claim.min_idle, 100);
    let reply = AutoClaimReply {
        next_stream_id: "0-0".to_string(),
        claimed: vec![entry("1-0", b"first"), entry("2-0", b"second")],
    };
    // nothing new was published
    let items = subscriber.collect(Some(Ok(reply)), Ok(Vec::new())).unwrap();
    let mut got = payloads(&items);
    got.sort();
    assert_eq!(got, vec![b"first".to_vec(), b"second".to_vec()]);
    let mut got = ids(&items);
    got.sort();
    assert_eq!(got, vec!["1-0", "2-0"]);
}

#[test]
fn cursor_follows_the_claims() {
    let mut subscriber = polling(SubscriberConfig::new("orders".to_string()));
    assert_eq!(subscriber.next_poll().unwrap().reclaim.unwrap().start, "0-0");
    let reply = AutoClaimReply { next_stream_id: "17-3".to_string(), claimed: Vec::new() };
    subscriber.collect(Some(Ok(reply)), Ok(Vec::new())).unwrap();
    assert_eq!(subscriber.next_poll().unwrap().reclaim.unwrap().start, "17-3");
    // a round without a claim leaves the cursor
    subscriber.collect(None, Ok(Vec::new())).unwrap();
    assert_eq!(subscriber.next_poll().unwrap().reclaim.unwrap().start, "17-3");
    // a failed claim leaves the cursor
    assert!(subscriber.collect(Some(Err(failure(None, "down"))), Ok(Vec::new())).is_err());
    assert_eq!(subscriber.next_poll().unwrap().reclaim.unwrap().start, "17-3");
    // a failed read does not undo a claim that succeeded
    let reply = AutoClaimReply { next_stream_id: "21-0".to_string(), claimed: Vec::new() };
    assert!(subscriber.collect(Some(Ok(reply)), Err(failure(None, "down"))).is_err());
    assert_eq!(subscriber.next_poll().unwrap().reclaim.unwrap().start, "21-0");
    // the server ends a scan with the start of the pending entries
    let reply = AutoClaimReply { next_stream_id: "0-0".to_string(), claimed: Vec::new() };
    subscriber.collect(Some(Ok(reply)), Ok(Vec::new())).unwrap();
    assert_eq!(subscriber.next_poll().unwrap().reclaim.unwrap().start, "0-0");
    // a new subscription starts over
    let reply = AutoClaimReply { next_stream_id: "30-0".to_string(), claimed: Vec::new() };
    subscriber.collect(Some(Ok(reply)), Ok(Vec::new())).unwrap();
    subscriber.subscribe(Err(busy_group())).unwrap();
    assert_eq!(subscriber.next_poll().unwrap().reclaim.unwrap().start, "0-0");
}

#[test]
fn failed_round_yields_nothing_and_polling_goes_on() {
    let mut subscriber = polling(SubscriberConfig::new("orders".to_string()));
    let claim = AutoClaimReply {
        next_stream_id: "0-0".to_string(),
        claimed: vec![entry("1-0", b"stalled")],
    };
    let err = subscriber.collect(Some(Ok(claim)), Err(failure(None, "timed out"))).unwrap_err();
    assert!(matches!(
        &err,
        SubError::BrokerError(BrokerError::RedisSubscribe(SubscribeError::Read(cause)))
            if cause.detail == "timed out"
    ));
    assert_eq!(err.to_string(), "Broker error: Message Reading Error: timed out");
    assert_eq!(subscriber.phase(), Phase::Polling);

    let fresh = vec![StreamKey { key: "orders".to_string(), ids: vec![entry("2-0", b"new")] }];
    let err = subscriber.collect(Some(Err(failure(None, "no script"))), Ok(fresh)).unwrap_err();
    assert!(matches!(
        &err,
        SubError::BrokerError(BrokerError::RedisSubscribe(SubscribeError::AutoClaim(cause)))
            if cause.detail == "no script"
    ));
    assert_eq!(err.to_string(), "Broker error: Message Claiming Error: no script");
    assert_eq!(subscriber.phase(), Phase::Polling);

    // where both fail, the claim's failure is reported
    let err = subscriber
        .collect(Some(Err(failure(None, "claim"))), Err(failure(None, "read")))
        .unwrap_err();
    assert_eq!(err.to_string(), "Broker error: Message Claiming Error: claim");

    // the next round is as good as any
    let fresh = vec![StreamKey { key: "orders".to_string(), ids: vec![entry("3-0", b"later")] }];
    let items = subscriber.collect(None, Ok(fresh)).unwrap();
    assert_eq!(payloads(&items), vec![b"later".to_vec()]);
}

#[test]
fn entries_without_a_bulk_data_field_are_passed_over() {
    let subscriber = polling(SubscriberConfig::new("orders".to_string()));
    let entries = vec![
        entry("1-0", b"one"),
        StreamEntry::new("2-0".to_string(), Vec::new()),
        StreamEntry::new("3-0".to_string(), vec![("data".to_string(), FieldValue::Other)]),
        StreamEntry::new(
            "4-0".to_string(),
            vec![("other".to_string(), FieldValue::BulkString(b"no".to_vec()))],
        ),
        StreamEntry::new(
            "5-0".to_string(),
            vec![
                ("kind".to_string(), FieldValue::BulkString(b"k".to_vec())),
                ("data".to_string(), FieldValue::BulkString(b"five".to_vec())),
            ],
        ),
        StreamEntry::new(
            "6-0".to_string(),
            vec![("Data".to_string(), FieldValue::BulkString(b"no".to_vec()))],
        ),
        entry("7-0", b""),
    ];
    let items = subscriber.handle_stream_ids(entries);
    assert_eq!(ids(&items), vec!["1-0", "5-0", "7-0"]);
    assert_eq!(payloads(&items), vec![b"one".to_vec(), b"five".to_vec(), Vec::new()]);
    assert!(subscriber.handle_stream_ids(Vec::new()).is_empty());
}

#[test]
fn the_first_field_of_a_name_is_the_one_read() {
    let twice = StreamEntry::new(
        "1-0".to_string(),
        vec![
            ("data".to_string(), FieldValue::BulkString(b"first".to_vec())),
            ("data".to_string(), FieldValue::BulkString(b"second".to_vec())),
        ],
    );
    assert_eq!(twice.bulk_string(&"data".to_string()), Some(b"first".to_vec()));
    let shadowed = StreamEntry::new(
        "2-0".to_string(),
        vec![
            ("data".to_string(), FieldValue::Other),
            ("data".to_string(), FieldValue::BulkString(b"second".to_vec())),
        ],
    );
    assert_eq!(shadowed.bulk_string(&"data".to_string()), None);
    assert_eq!(shadowed.bulk_string(&"none".to_string()), None);
}

#[test]
fn entries_of_a_read_are_gathered_in_order() {
    let keys = vec![
        StreamKey { key: "a".to_string(), ids: vec![entry("1-0", b"1"), entry("2-0", b"2")] },
        StreamKey { key: "b".to_string(), ids: Vec::new() },
        StreamKey { key: "c".to_string(), ids: vec![entry("3-0", b"3")] },
    ];
    let gathered: Vec<String> = flatten_keys(keys).into_iter().map(|e| e.id).collect();
    assert_eq!(gathered, vec!["1-0", "2-0", "3-0"]);
    assert!(flatten_keys(Vec::new()).is_empty());
}

#[test]
fn replies_outside_the_polling_phase_are_left_aside() {
    let mut subscriber = Subscriber::new(SubscriberConfig::new("orders".to_string()));
    let claim = AutoClaimReply {
        next_stream_id: "4-0".to_string(),
        claimed: vec![entry("1-0", b"stalled")],
    };
    let fresh = vec![StreamKey { key: "orders".to_string(), ids: vec![entry("2-0", b"new")] }];
    assert!(subscriber.collect(Some(Ok(claim)), Ok(fresh)).unwrap().is_empty());
    assert!(subscriber.collect(None, Err(failure(None, "down"))).unwrap().is_empty());
    subscriber.subscribe(Ok(())).unwrap();
    assert_eq!(subscriber.next_poll().unwrap().reclaim.unwrap().start, "0-0");
}

#[test]
fn unsubscribe_is_terminal() {
    let mut subscriber = polling(SubscriberConfig::new("orders".to_string()));
    assert!(subscriber.unsubscribe(Ok(2)).is_ok());
    assert_eq!(subscriber.phase(), Phase::Unsubscribed);
    assert!(subscriber.next_poll().is_none());
    let fresh = vec![StreamKey { key: "orders".to_string(), ids: vec![entry("2-0", b"new")] }];
    assert!(subscriber.collect(None, Ok(fresh)).unwrap().is_empty());
    // the consumer is gone already: no error
    assert!(subscriber.unsubscribe(Ok(0)).is_ok());
    assert_eq!(subscriber.phase(), Phase::Unsubscribed);
    // nothing leads back
    assert!(subscriber.subscribe(Ok(())).is_ok());
    assert_eq!(subscriber.phase(), Phase::Unsubscribed);
    assert!(subscriber.next_poll().is_none());
}

#[test]
fn unsubscribe_of_a_consumer_that_never_read_is_no_error() {
    let mut subscriber = Subscriber::new(SubscriberConfig::new("orders".to_string()));
    assert!(subscriber.unsubscribe(Ok(0)).is_ok());
    assert_eq!(subscriber.phase(), Phase::Unsubscribed);
}

#[test]
fn failed_unsubscribe_leaves_the_subscriber() {
    let mut subscriber = polling(SubscriberConfig::new("orders".to_string()));
    let err = subscriber.unsubscribe(Err(failure(Some("NOGROUP"), "NOGROUP: gone"))).unwrap_err();
    match &err {
        UnSubError::BrokerError(BrokerError::RedisUnsubscribe(UnsubscribeError(cause))) => {
            assert_eq!(cause.code.as_deref(), Some("NOGROUP"));
        }
        other => panic!("unexpected error {:?}", other),
    }
    assert_eq!(err.to_string(), "Broker error: Redis unsubscription error: NOGROUP: gone");
    assert_eq!(subscriber.phase(), Phase::Polling);
    assert!(subscriber.next_poll().is_some());
}

#[test]
fn ack_names_its_entry() {
    let ack = Ack::new("billing".to_string(), "orders".to_string(), "12-1".to_string());
    let cmd = ack.command();
    assert_eq!(cmd.group, "billing");
    assert_eq!(cmd.stream, "orders");
    assert_eq!(cmd.id, "12-1");
    let again = ack.clone().command();
    assert_eq!(again.group, "billing");
    assert_eq!(again.stream, "orders");
    assert_eq!(again.id, "12-1");
}

#[test]
fn ack_outcome() {
    let ack = Ack::new("billing".to_string(), "orders".to_string(), "12-1".to_string());
    assert!(ack.ack(Ok(1)).is_ok());
    // acknowledged before: the server counts nothing, and that is no error
    assert!(ack.ack(Ok(0)).is_ok());
    let err = ack.ack(Err(failure(None, "broken pipe"))).unwrap_err();
    assert!(matches!(
        &err,
        AckError::BrokerError(BrokerError::RedisAck(RedisAckError(cause)))
            if cause.detail == "broken pipe"
    ));
    assert_eq!(err.to_string(), "Broker error: Redis acknowledgment error: broken pipe");
}

#[test]
fn publisher_defaults() {
    let publisher = Publisher::new(PublisherConfig::new());
    let cmd = publisher.provision("orders");
    assert_eq!(cmd.stream, "orders");
    assert_eq!(cmd.group, "orders");
    assert_eq!(cmd.start_id, "$");
    let append = publisher.publish("orders", Bytes::from_static(b"hello"), Ok(())).unwrap();
    assert_eq!(append.stream, "orders");
    assert_eq!(append.max_len, 500_000);
    assert_eq!(append.id, "*");
    assert_eq!(append.field, "data");
    assert_eq!(append.payload, b"hello".to_vec());
}

#[test]
fn publisher_settings_reach_the_commands() {
    let cfg = PublisherConfig::new().group_name("audit".to_string()).stream_length(3);
    let publisher = Publisher::new(cfg);
    let cmd = publisher.provision("orders");
    assert_eq!(cmd.stream, "orders");
    assert_eq!(cmd.group, "audit");
    let append = publisher.publish("orders", Bytes::new(), Ok(())).unwrap();
    assert_eq!(append.stream, "orders");
    assert_eq!(append.max_len, 3);
    assert!(append.payload.is_empty());
    let cfg = PublisherConfig::new().stream_length(0);
    let append = Publisher::new(cfg).publish("orders", Bytes::new(), Ok(())).unwrap();
    assert_eq!(append.max_len, 0);
}

#[test]
fn publish_twice_is_no_error() {
    let publisher = Publisher::new(PublisherConfig::new());
    assert!(publisher.publish("orders", Bytes::from_static(b"1"), Ok(())).is_ok());
    let append = publisher.publish("orders", Bytes::from_static(b"2"), Err(busy_group())).unwrap();
    assert_eq!(append.payload, b"2".to_vec());
}

#[test]
fn publish_ends_when_provisioning_fails() {
    let publisher = Publisher::new(PublisherConfig::new());
    let err = publisher
        .publish("orders", Bytes::from_static(b"1"), Err(failure(Some("ERR"), "ERR: wrong type")))
        .unwrap_err();
    match &err {
        PubError::BrokerError(BrokerError::RedisPublish(PublishError::GroupCreation(cause))) => {
            assert_eq!(cause.code.as_deref(), Some("ERR"));
            assert_eq!(cause.detail, "ERR: wrong type");
        }
        other => panic!("unexpected error {:?}", other),
    }
    assert_eq!(err.to_string(), "Broker error: Group Creation Error: ERR: wrong type");
}

#[test]
fn publish_outcome() {
    let publisher = Publisher::new(PublisherConfig::new());
    assert!(publisher.published(Ok(Some("1-0".to_string()))).is_ok());
    assert!(publisher.published(Ok(None)).is_ok());
    let err = publisher.published(Err(failure(Some("OOM"), "OOM: full"))).unwrap_err();
    assert!(matches!(
        &err,
        PubError::BrokerError(BrokerError::RedisPublish(PublishError::Push(cause)))
            if cause.code.as_deref() == Some("OOM")
    ));
    assert_eq!(err.to_string(), "Broker error: Message Pushing Error: OOM: full");
}
