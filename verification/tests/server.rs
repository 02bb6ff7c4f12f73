use metrics_server::{Buffer, MetricsServer};

#[test]
fn update_returns_new_length() {
    let server = MetricsServer::new();
    assert_eq!(server.update(vec![1, 2, 3, 4]), 4);
}

#[test]
fn update_of_empty_payload_returns_zero() {
    let server = MetricsServer::new();
    assert_eq!(server.update(Vec::new()), 0);
}

#[test]
fn fresh_server_snapshot_is_empty() {
    let server = MetricsServer::new();
    assert_eq!(server.snapshot(), Vec::<u8>::new());
}

#[test]
fn last_write_wins() {
    let server = MetricsServer::new();
    server.update(vec![1, 2, 3]);
    server.update(vec![9, 8]);
    assert_eq!(server.snapshot(), vec![9, 8]);
}

#[test]
fn buffer_replace_and_contents() {
    let mut b = Buffer::empty();
    assert_eq!(b.len(), 0);
    assert_eq!(b.replace(vec![5, 6, 7]), 3);
    assert_eq!(b.contents(), vec![5, 6, 7]);
    assert_eq!(b.replace(vec![1]), 1);
    assert_eq!(b.contents(), vec![1]);
    assert_eq!(b.len(), 1);
}

#[test]
fn clones_share_the_same_buffer() {
    let first = MetricsServer::new();
    let second = first.clone();
    first.update(vec![42]);
    assert_eq!(second.snapshot(), vec![42]);
}

#[test]
fn default_server_is_empty() {
    let server = MetricsServer::default();
    assert_eq!(server.snapshot(), Vec::<u8>::new());
}
