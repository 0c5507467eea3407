use flor_echo::client::{
    CLIENT_COUNT, MAX_START_DELAY_SECS, REPLY_BUFFER_SIZE, ReplyOutcome, continue_after_reply,
    draw_delays, greeting, start_delays,
};
use rand::SeedableRng;
use rand::rngs::StdRng;
use flor_echo::io_error::IoErrorKind;

#[test]
fn greeting_of_first_client() {
    assert_eq!(greeting(0), b"hello world 0".to_vec());
}

#[test]
fn greeting_with_several_digits() {
    assert_eq!(greeting(9), b"hello world 9".to_vec());
    assert_eq!(greeting(10), b"hello world 10".to_vec());
    assert_eq!(greeting(12345), b"hello world 12345".to_vec());
    assert_eq!(greeting(1000000), b"hello world 1000000".to_vec());
}

#[test]
fn greeting_of_largest_index() {
    assert_eq!(greeting(usize::MAX), format!("hello world {}", usize::MAX).into_bytes());
}

#[test]
fn greeting_matches_format_for_many_indices() {
    for i in (0..2000).chain([65535, 65536, 4294967295, 4294967296]) {
        assert_eq!(greeting(i), format!("hello world {i}").into_bytes());
    }
}

#[test]
fn keeps_reading_after_data() {
    assert!(continue_after_reply(ReplyOutcome::Read(1)));
    assert!(continue_after_reply(ReplyOutcome::Read(REPLY_BUFFER_SIZE)));
}

#[test]
fn stops_when_server_closes() {
    assert!(!continue_after_reply(ReplyOutcome::Read(0)));
}

#[test]
fn stops_on_error_or_timeout() {
    assert!(!continue_after_reply(ReplyOutcome::Failed(IoErrorKind::ConnectionReset)));
    assert!(!continue_after_reply(ReplyOutcome::Failed(IoErrorKind::Other)));
    assert!(!continue_after_reply(ReplyOutcome::TimedOut));
}

#[test]
fn run_has_ten_clients() {
    assert_eq!(CLIENT_COUNT, 10);
    assert_eq!(REPLY_BUFFER_SIZE, 128);
}

#[test]
fn start_delays_are_within_bounds() {
    for _ in 0..50 {
        let delays = start_delays(CLIENT_COUNT).expect("the system can seed a generator");
        assert_eq!(delays.len(), CLIENT_COUNT);
        assert!(delays.iter().all(|d| *d <= MAX_START_DELAY_SECS));
    }
    assert_eq!(MAX_START_DELAY_SECS, 10);
}

#[test]
fn no_clients_no_delays() {
    assert!(start_delays(0).expect("the system can seed a generator").is_empty());
}

#[test]
fn delays_are_drawn_at_random() {
    // With 200 draws from eleven values, a single repeated value would be
    // astronomically unlikely for a working generator.
    let delays = start_delays(200).expect("the system can seed a generator");
    let first = delays[0];
    assert!(delays.iter().any(|d| *d != first));
}

#[test]
fn drawn_delays_from_a_seeded_generator() {
    let mut rng = StdRng::seed_from_u64(7);
    let delays = draw_delays(&mut rng, 300);
    assert_eq!(delays.len(), 300);
    assert!(delays.iter().all(|d| *d <= MAX_START_DELAY_SECS));
    assert!(delays.iter().any(|d| *d != delays[0]));
    assert!(draw_delays(&mut rng, 0).is_empty());
}
