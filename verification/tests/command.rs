use kvcore::command::{serve, serve_and_reply, Command, Responder};
use kvcore::dispatch::Reply;
use kvcore::request::Request;
use kvcore::store::{new_sharded_db, Shard};
use tokio::sync::oneshot;

#[test]
fn command_keeps_request_and_slot() {
    let get = Command::new(Request::Get { key: "a".to_string() }, 7u32);
    assert!(matches!(&get, Command::Get { key, resp: 7 } if key.as_str() == "a"));
    assert_eq!(get.into_parts(), (Request::Get { key: "a".to_string() }, 7));
    let put = Command::new(Request::Put { key: "a".to_string(), value: vec![1, 2] }, "slot");
    assert!(matches!(&put, Command::Put { key, val, resp: "slot" }
        if key.as_str() == "a" && val.as_slice() == [1u8, 2].as_slice()));
    assert_eq!(
        put.into_parts(),
        (Request::Put { key: "a".to_string(), value: vec![1, 2] }, "slot")
    );
}

#[test]
fn owner_answers_every_command_in_its_own_slot() {
    let mut store = Shard::new();
    let commands = vec![
        Command::Put { key: "a".to_string(), val: b"1".to_vec(), resp: 0usize },
        Command::Get { key: "a".to_string(), resp: 1 },
        Command::Get { key: "b".to_string(), resp: 2 },
        Command::Put { key: "a".to_string(), val: b"2".to_vec(), resp: 3 },
        Command::Get { key: "a".to_string(), resp: 4 },
    ];
    let mut answers: Vec<(usize, Reply)> = Vec::new();
    for command in commands {
        answers.push(serve(&mut store, command));
    }
    assert_eq!(
        answers,
        vec![
            (0, Reply::Ack),
            (1, Reply::Value(b"1".to_vec())),
            (2, Reply::Absent),
            (3, Reply::Ack),
            (4, Reply::Value(b"2".to_vec())),
        ]
    );
    assert_eq!(store.get("a"), Some(b"2".to_vec()));
}

#[test]
fn owner_serves_a_partitioned_store_as_well() {
    let mut db = new_sharded_db(4);
    let (slot, reply) =
        serve(&mut db, Command::Put { key: "k".to_string(), val: b"v".to_vec(), resp: 'x' });
    assert_eq!((slot, reply), ('x', Reply::Ack));
    let (slot, reply) = serve(&mut db, Command::Get { key: "k".to_string(), resp: 'y' });
    assert_eq!((slot, reply), ('y', Reply::Value(b"v".to_vec())));
}

#[test]
fn reply_arrives_in_the_slot() {
    let mut store = Shard::new();
    let (resp, mut answer): (Responder<Reply>, _) = oneshot::channel();
    let put = Command::Put { key: "a".to_string(), val: b"1".to_vec(), resp };
    assert!(serve_and_reply(&mut store, put));
    assert_eq!(answer.try_recv(), Ok(Reply::Ack));
    let (resp, mut answer) = oneshot::channel();
    assert!(serve_and_reply(&mut store, Command::Get { key: "a".to_string(), resp }));
    assert_eq!(answer.try_recv(), Ok(Reply::Value(b"1".to_vec())));
    let (resp, mut answer) = oneshot::channel();
    assert!(serve_and_reply(&mut store, Command::Get { key: "b".to_string(), resp }));
    assert_eq!(answer.try_recv(), Ok(Reply::Absent));
}

#[test]
fn request_is_served_though_nobody_waits_for_the_reply() {
    let mut store = Shard::new();
    let (resp, answer) = oneshot::channel();
    drop(answer);
    let put = Command::Put { key: "a".to_string(), val: b"1".to_vec(), resp };
    assert!(!serve_and_reply(&mut store, put));
    assert_eq!(store.get("a"), Some(b"1".to_vec()));
}

#[test]
fn slot_without_a_reply_is_seen_as_closed() {
    let (resp, mut answer): (Responder<Reply>, _) = oneshot::channel();
    let command = Command::Get { key: "a".to_string(), resp };
    drop(command);
    assert_eq!(answer.try_recv(), Err(oneshot::error::TryRecvError::Closed));
}
