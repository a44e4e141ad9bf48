use minisync::channels::spawn_channels;

#[test]
fn lifo_order_single_threaded() {
    let mut ch = spawn_channels::<u32>(3);
    ch.send(1);
    ch.send(2);
    ch.send(3);
    assert_eq!(ch.recv(), 3);
    assert_eq!(ch.recv(), 2);
    assert_eq!(ch.recv(), 1);
}

#[test]
fn try_recv_on_fresh_channel_is_empty_not_error() {
    let mut ch = spawn_channels::<u32>(8);
    assert_eq!(ch.try_recv(), Ok(None));
}

#[test]
fn try_recv_returns_most_recent_value() {
    let mut ch = spawn_channels(2);
    ch.send(5u8);
    ch.send(6);
    assert_eq!(ch.try_recv(), Ok(Some(6)));
    assert_eq!(ch.try_recv(), Ok(Some(5)));
    assert_eq!(ch.try_recv(), Ok(None));
}

#[test]
fn ready_reflects_queue_contents() {
    let mut ch = spawn_channels(0);
    assert!(!ch.ready());
    ch.send(1u16);
    assert!(ch.ready());
    let got = ch.recv();
    assert_eq!(got, 1);
    assert!(!ch.ready());
}

#[test]
fn send_grows_beyond_capacity_hint() {
    let mut ch = spawn_channels(1);
    let mut i: u32 = 0;
    while i < 100 {
        ch.send(i);
        i += 1;
    }
    assert!(ch.ready());
    assert_eq!(ch.recv(), 99);
}

#[test]
fn recv_returns_a_previously_sent_value() {
    let mut ch = spawn_channels(2);
    ch.send(7u8);
    ch.send(9);
    let v = ch.recv();
    assert!(v == 7 || v == 9);
}

#[test]
fn interleaved_sends_received_as_one_multiset() {
    let mut ch = spawn_channels(4);
    let mut v: u32 = 0;
    while v < 100 {
        ch.send(v);
        v += 10;
    }
    ch.send(100);
    let mut got: Vec<u32> = Vec::new();
    let mut n: usize = 0;
    while n < 11 {
        got.push(ch.recv());
        n += 1;
    }
    got.sort();
    assert_eq!(got, vec![0, 10, 20, 30, 40, 50, 60, 70, 80, 90, 100]);
}
