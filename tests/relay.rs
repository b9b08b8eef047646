use message_relay::frame::notification_frame;
use message_relay::index;
use message_relay::registry::Registry;
use message_relay::relay::{position_of, read_outcome, LogError, Relay, StoreFault, LAST_POSITION};
use message_relay::writer::{ConnectionState, ConnectionWriter};

/// A stand-in for the list store: append answers the new length, and a read
/// takes a position that counts from the back when negative.
struct FakeStore {
    items: Vec<String>,
    reachable: bool,
}

impl FakeStore {
    fn new() -> FakeStore {
        FakeStore { items: Vec::new(), reachable: true }
    }

    fn append(&mut self, payload: &str) -> Result<i64, StoreFault> {
        if !self.reachable {
            return Err(StoreFault);
        }
        self.items.push(payload.to_string());
        Ok(self.items.len() as i64)
    }

    fn read(&self, pos: i64) -> Result<Option<String>, StoreFault> {
        if !self.reachable {
            return Err(StoreFault);
        }
        let len = self.items.len() as i64;
        let at = if pos < 0 { len + pos } else { pos };
        if at < 0 || at >= len {
            Ok(None)
        } else {
            Ok(Some(self.items[at as usize].clone()))
        }
    }
}

/// One push through the relay; `broken` lists the connections whose
/// transport fails. Returns the result and the connections that were sent to.
fn push(relay: &mut Relay, store: &mut FakeStore, payload: &str, broken: &[u64]) -> (Result<u64, LogError>, Vec<u64>, Vec<u8>) {
    match relay.begin_push(store.append(payload)) {
        Err(e) => (Err(e), Vec::new(), Vec::new()),
        Ok(round) => {
            let mut reached = Vec::new();
            let mut failed = Vec::new();
            for id in round.targets.iter() {
                if broken.contains(id) {
                    failed.push(*id);
                } else {
                    reached.push(*id);
                }
            }
            let frame = round.frame.clone();
            let i = relay.finish_push(&round, &failed);
            (Ok(i), reached, frame)
        }
    }
}

fn get(store: &FakeStore, i: u64) -> Result<String, LogError> {
    match position_of(i) {
        Err(e) => Err(e),
        Ok(pos) => read_outcome(store.read(pos), false),
    }
}

fn get_last(store: &FakeStore) -> Result<String, LogError> {
    read_outcome(store.read(LAST_POSITION), true)
}

#[test]
fn root_page_greets() {
    assert_eq!(index(), "Hello, world!");
}

#[test]
fn sequential_pushes_number_from_zero() {
    let mut relay = Relay::new();
    let mut store = FakeStore::new();
    for k in 0..10u64 {
        let (r, _, _) = push(&mut relay, &mut store, &format!("m{}", k), &[]);
        assert_eq!(r, Ok(k));
    }
}

#[test]
fn shuffled_answers_give_each_index_once() {
    // 100 callers whose appends the store answered in some interleaving.
    let relay = Relay::new();
    let mut lengths: Vec<i64> = (1..=100).collect();
    let mut seed: u64 = 12345;
    for i in (1..lengths.len()).rev() {
        seed = seed.wrapping_mul(6364136223846793005).wrapping_add(1442695040888963407);
        let j = (seed >> 33) as usize % (i + 1);
        lengths.swap(i, j);
    }
    let mut seen = vec![0u32; 100];
    for len in lengths {
        let round = relay.begin_push(Ok(len)).ok().unwrap();
        seen[round.index as usize] += 1;
    }
    assert!(seen.iter().all(|&c| c == 1));
}

#[test]
fn get_returns_pushed_payload() {
    let mut relay = Relay::new();
    let mut store = FakeStore::new();
    let (r0, _, _) = push(&mut relay, &mut store, "first", &[]);
    let (r1, _, _) = push(&mut relay, &mut store, "second", &[]);
    assert_eq!(get(&store, r0.unwrap()), Ok("first".to_string()));
    assert_eq!(get(&store, r1.unwrap()), Ok("second".to_string()));
}

#[test]
fn get_last_is_latest_push() {
    let mut relay = Relay::new();
    let mut store = FakeStore::new();
    for p in ["a", "b", "c"] {
        push(&mut relay, &mut store, p, &[]);
    }
    assert_eq!(get_last(&store), Ok("c".to_string()));
}

#[test]
fn reads_past_end_fail() {
    let mut relay = Relay::new();
    let mut store = FakeStore::new();
    assert_eq!(get_last(&store), Err(LogError::EmptyLog));
    assert_eq!(get(&store, 0), Err(LogError::IndexOutOfRange));
    push(&mut relay, &mut store, "x", &[]);
    assert_eq!(get(&store, 1), Err(LogError::IndexOutOfRange));
    assert_eq!(get(&store, u64::MAX), Err(LogError::IndexOutOfRange));
}

#[test]
fn unreachable_store_fails_push_and_reads() {
    let mut relay = Relay::new();
    let a = relay.register_connection();
    let mut store = FakeStore::new();
    store.reachable = false;
    let (r, reached, _) = push(&mut relay, &mut store, "x", &[]);
    assert_eq!(r, Err(LogError::StoreUnavailable));
    assert!(reached.is_empty());
    assert!(relay.is_registered(a));
    assert_eq!(get(&store, 0), Err(LogError::StoreUnavailable));
    assert_eq!(get_last(&store), Err(LogError::StoreUnavailable));
}

#[test]
fn impossible_append_answer_is_reported() {
    let relay = Relay::new();
    assert_eq!(relay.begin_push(Ok(0)).err(), Some(LogError::BadReply));
    assert_eq!(relay.begin_push(Ok(-3)).err(), Some(LogError::BadReply));
}

#[test]
fn largest_append_answer() {
    let relay = Relay::new();
    let round = relay.begin_push(Ok(i64::MAX)).ok().unwrap();
    assert_eq!(round.index, (i64::MAX - 1) as u64);
    assert_eq!(round.frame, b"N9223372036854775806".to_vec());
}

#[test]
fn registered_before_push_is_notified_after_is_not() {
    let mut relay = Relay::new();
    let mut store = FakeStore::new();
    let a = relay.register_connection();
    let (r, reached, frame) = push(&mut relay, &mut store, "one", &[]);
    assert_eq!(r, Ok(0));
    assert_eq!(reached, vec![a]);
    assert_eq!(frame, b"N0".to_vec());
    let b = relay.register_connection();
    assert_ne!(a, b);
    let (_, reached, frame) = push(&mut relay, &mut store, "two", &[]);
    assert_eq!(reached, vec![a, b]);
    assert_eq!(frame, b"N1".to_vec());
}

#[test]
fn broken_connection_is_pruned_and_push_succeeds() {
    let mut relay = Relay::new();
    let mut store = FakeStore::new();
    let a = relay.register_connection();
    let b = relay.register_connection();
    let (r, _, _) = push(&mut relay, &mut store, "x", &[a]);
    assert_eq!(r, Ok(0));
    assert!(!relay.is_registered(a));
    assert!(relay.is_registered(b));
    let round = relay.begin_push(store.append("y")).ok().unwrap();
    assert_eq!(round.targets, vec![b]);
}

#[test]
fn scenario_push_hello() {
    let mut relay = Relay::new();
    let mut store = FakeStore::new();
    let (r, _, _) = push(&mut relay, &mut store, "hello", &[]);
    assert_eq!(r, Ok(0));
    assert_eq!(get(&store, 0), Ok("hello".to_string()));
    assert_eq!(get_last(&store), Ok("hello".to_string()));
}

#[test]
fn scenario_two_subscribers_then_one_closes() {
    let mut relay = Relay::new();
    let mut store = FakeStore::new();
    let a = relay.register_connection();
    let b = relay.register_connection();
    let (r, reached, frame) = push(&mut relay, &mut store, "hi", &[]);
    assert_eq!(r, Ok(0));
    assert_eq!(reached, vec![a, b]);
    assert_eq!(frame, b"N0".to_vec());
    let (r, reached, frame) = push(&mut relay, &mut store, "second", &[a]);
    assert_eq!(r, Ok(1));
    assert_eq!(reached, vec![b]);
    assert_eq!(frame, b"N1".to_vec());
    assert!(!relay.is_registered(a));
    assert_eq!(relay.members(), vec![b]);
}

#[test]
fn scenario_hundred_pushes_cover_range() {
    let mut relay = Relay::new();
    let mut store = FakeStore::new();
    let mut seen = vec![false; 100];
    for k in 0..100 {
        let (r, _, _) = push(&mut relay, &mut store, &format!("c{}", k), &[]);
        let i = r.unwrap() as usize;
        assert!(!seen[i]);
        seen[i] = true;
    }
    assert!(seen.iter().all(|&s| s));
}

#[test]
fn frame_digits() {
    assert_eq!(notification_frame(0), b"N0".to_vec());
    assert_eq!(notification_frame(9), b"N9".to_vec());
    assert_eq!(notification_frame(10), b"N10".to_vec());
    assert_eq!(notification_frame(407), b"N407".to_vec());
    assert_eq!(notification_frame(u64::MAX), b"N18446744073709551615".to_vec());
}

#[test]
fn registry_register_unregister() {
    let mut reg = Registry::new();
    assert_eq!(reg.len(), 0);
    let a = reg.register();
    let b = reg.register();
    let c = reg.register();
    assert_eq!((a, b, c), (0, 1, 2));
    reg.unregister(b);
    assert_eq!(reg.snapshot(), vec![a, c]);
    reg.unregister(b);
    reg.unregister(99);
    assert_eq!(reg.snapshot(), vec![a, c]);
    assert!(!reg.contains(b));
    let d = reg.register();
    assert_eq!(d, 3);
    assert_eq!(reg.snapshot(), vec![a, c, d]);
    assert!(reg.can_register());
}

#[test]
fn snapshot_is_independent() {
    let mut reg = Registry::new();
    let a = reg.register();
    let snap = reg.snapshot();
    reg.unregister(a);
    assert_eq!(snap, vec![a]);
    assert_eq!(reg.len(), 0);
}

#[test]
fn writer_sends_in_queue_order() {
    let mut w = ConnectionWriter::new();
    assert_eq!(w.current_state(), ConnectionState::Connecting);
    assert!(!w.enqueue(0));
    w.activate();
    assert_eq!(w.current_state(), ConnectionState::Active);
    assert!(w.enqueue(3));
    assert!(w.enqueue(4));
    assert_eq!(w.next_to_send(), Some(3));
    assert!(w.report(true));
    assert_eq!(w.next_to_send(), Some(4));
    assert!(w.report(true));
    assert_eq!(w.next_to_send(), None);
}

#[test]
fn writer_failure_closes() {
    let mut w = ConnectionWriter::new();
    w.activate();
    w.enqueue(1);
    w.enqueue(2);
    assert!(!w.report(false));
    assert_eq!(w.current_state(), ConnectionState::Closing);
    assert_eq!(w.next_to_send(), None);
    assert!(!w.enqueue(5));
    w.activate();
    assert_eq!(w.current_state(), ConnectionState::Closing);
    w.finish_close();
    assert_eq!(w.current_state(), ConnectionState::Closed);
    w.transport_closed();
    assert_eq!(w.current_state(), ConnectionState::Closed);
}

#[test]
fn writer_transport_closed() {
    let mut w = ConnectionWriter::new();
    w.activate();
    w.enqueue(7);
    w.transport_closed();
    assert_eq!(w.current_state(), ConnectionState::Closing);
    assert_eq!(w.next_to_send(), None);
}
