use kvcore::dispatch::{apply, handle_frame, Reply};
use kvcore::frame::RespFrame;
use kvcore::request::{ConnectionError, Request};
use kvcore::store::{new_sharded_db, Shard};

fn request_frame(parts: &[&str]) -> RespFrame {
    RespFrame::Array(parts.iter().map(|part| RespFrame::Bulk(part.as_bytes().to_vec())).collect())
}

#[test]
fn scenario_over_frames() {
    let mut db = new_sharded_db(1);
    assert_eq!(
        handle_frame(&mut db, &request_frame(&["set", "a", "1"])),
        Ok(RespFrame::Simple("OK".to_string()))
    );
    assert_eq!(
        handle_frame(&mut db, &request_frame(&["get", "a"])),
        Ok(RespFrame::Bulk(b"1".to_vec()))
    );
    assert_eq!(handle_frame(&mut db, &request_frame(&["get", "b"])), Ok(RespFrame::Null));
    assert_eq!(db.set("a", b"2"), Some(b"1".to_vec()));
    assert_eq!(
        handle_frame(&mut db, &request_frame(&["get", "a"])),
        Ok(RespFrame::Bulk(b"2".to_vec()))
    );
}

#[test]
fn apply_get_reads_and_set_writes() {
    let mut shard = Shard::new();
    let get = Request::Get { key: "k".to_string() };
    assert_eq!(apply(&mut shard, &get), Reply::Absent);
    let put = Request::Put { key: "k".to_string(), value: b"v".to_vec() };
    assert_eq!(apply(&mut shard, &put), Reply::Ack);
    assert_eq!(apply(&mut shard, &get), Reply::Value(b"v".to_vec()));
    assert_eq!(shard.get("k"), Some(b"v".to_vec()));
}

#[test]
fn reply_frames() {
    assert_eq!(Reply::Ack.into_frame(), RespFrame::Simple("OK".to_string()));
    assert_eq!(Reply::Value(vec![1, 2]).into_frame(), RespFrame::Bulk(vec![1, 2]));
    assert_eq!(Reply::Value(Vec::new()).into_frame(), RespFrame::Bulk(Vec::new()));
    assert_eq!(Reply::Absent.into_frame(), RespFrame::Null);
}

#[test]
fn frame_that_is_no_request_leaves_the_store_untouched() {
    let mut db = new_sharded_db(2);
    db.set("a", b"1");
    assert_eq!(handle_frame(&mut db, &RespFrame::Null), Err(ConnectionError::Decode));
    assert_eq!(
        handle_frame(&mut db, &request_frame(&["set", "a"])),
        Err(ConnectionError::Decode)
    );
    assert_eq!(
        handle_frame(&mut db, &request_frame(&["publish", "a", "2"])),
        Err(ConnectionError::UnsupportedCommand)
    );
    assert_eq!(
        handle_frame(&mut db, &request_frame(&["flushall"])),
        Err(ConnectionError::UnsupportedCommand)
    );
    assert_eq!(db.get("a"), Some(b"1".to_vec()));
}
