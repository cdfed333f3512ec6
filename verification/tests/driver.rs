use packet_tracer::address::MacAddr;
use packet_tracer::driver::{
    Action, Config, Driver, Event, RetryPolicy, State, Step, EXIT_FAILURE, EXIT_OK,
};
use packet_tracer::interface::NetworkInterface;
use packet_tracer::publish::Message;
use packet_tracer::record::Timestamp;

const RECORD: &str =
    "[2024-01-01T00:00:00Z]: Tcp 10.0.0.1(aa:bb:cc:dd:ee:ff) -> 10.0.0.2(11:22:33:44:55:66) iface: eth0";

const TCP_FRAME: [u8; 34] = [
    0x11, 0x22, 0x33, 0x44, 0x55, 0x66, 0xaa, 0xbb, 0xcc, 0xdd, 0xee, 0xff, 0x08, 0x00, 0x45, 0x00,
    0x00, 0x28, 0x00, 0x01, 0x40, 0x00, 0x40, 0x06, 0x00, 0x00, 10, 0, 0, 1, 10, 0, 0, 2,
];

fn config() -> Config {
    Config {
        interface: "eth0".to_string(),
        broker: "localhost:9092".to_string(),
        topic: "packets".to_string(),
        key: "tracer".to_string(),
    }
}

fn interfaces() -> Vec<NetworkInterface> {
    vec![
        NetworkInterface { name: "lo".to_string(), mac: None, flags: 0x49 },
        NetworkInterface {
            name: "eth0".to_string(),
            mac: Some(MacAddr(2, 0, 0, 0, 0, 1)),
            flags: 0x1043,
        },
    ]
}

fn noon() -> Timestamp {
    Timestamp::from_unix(1_704_067_200, 0).unwrap()
}

fn capturing(policy: RetryPolicy) -> Driver {
    let mut driver = Driver::new(config(), policy);
    let list = interfaces();
    driver.step(Event::Interfaces(&list));
    driver.step(Event::ChannelOpened);
    assert_eq!(driver.state(), &State::Capturing);
    driver
}

fn publishing(policy: RetryPolicy) -> Driver {
    let mut driver = capturing(policy);
    let at = noon();
    driver.step(Event::Frame { bytes: &TCP_FRAME, at: &at });
    driver
}

fn next_frame(wait_ms: u64) -> Step {
    Step { action: Action::NextFrame { wait_ms }, log: None }
}

fn no_retry() -> RetryPolicy {
    RetryPolicy { max_retries: 0, backoff_ms: 0 }
}

#[test]
fn default_policy_retries_three_times() {
    assert_eq!(RetryPolicy::default(), RetryPolicy { max_retries: 3, backoff_ms: 500 });
}

#[test]
fn new_driver_awaits_the_interfaces() {
    let driver = Driver::new(config(), no_retry());
    assert_eq!(driver.state(), &State::Resolving);
    assert!(!driver.is_stopped());
    assert_eq!(driver.config(), &config());
}

#[test]
fn one_frame_gives_one_message() {
    let mut driver = Driver::new(config(), no_retry());
    let list = interfaces();
    let at = noon();
    let events = [
        Event::Interfaces(&list),
        Event::ChannelOpened,
        Event::Frame { bytes: &TCP_FRAME, at: &at },
        Event::Published,
    ];
    let mut steps = Vec::new();
    for event in events {
        steps.push(driver.step(event));
    }
    let message = Message::new(RECORD, "packets", "tracer");
    assert_eq!(steps[0], Step { action: Action::OpenChannel { index: 1 }, log: None });
    assert_eq!(steps[1], next_frame(0));
    assert_eq!(
        steps[2],
        Step {
            action: Action::Publish { message: message.duplicate(), wait_ms: 0 },
            log: Some(RECORD.to_string()),
        }
    );
    assert_eq!(steps[3], next_frame(0));
    let sent = steps.iter().filter(|step| matches!(step.action, Action::Publish { .. })).count();
    assert_eq!(sent, 1);
    assert_eq!(driver.state(), &State::Capturing);
}

#[test]
fn message_is_pending_until_acknowledged() {
    let mut driver = publishing(no_retry());
    assert_eq!(driver.state(), &State::Publishing(Message::new(RECORD, "packets", "tracer")));
    let at = noon();
    let ignored = Step { action: Action::Ignore, log: None };
    assert_eq!(driver.step(Event::Frame { bytes: &TCP_FRAME, at: &at }), ignored);
    assert_eq!(driver.step(Event::CaptureFailed { cause: "late" }), ignored);
    assert_eq!(driver.step(Event::ChannelOpened), ignored);
    assert_eq!(driver.state(), &State::Publishing(Message::new(RECORD, "packets", "tracer")));
    assert_eq!(driver.step(Event::Published), next_frame(0));
}

#[test]
fn unknown_interface_ends_the_run_at_startup() {
    let mut wanted = config();
    wanted.interface = "does-not-exist0".to_string();
    let mut driver = Driver::new(wanted, RetryPolicy { max_retries: 5, backoff_ms: 10 });
    let list = interfaces();
    assert_eq!(
        driver.step(Event::Interfaces(&list)),
        Step {
            action: Action::Exit { status: 1 },
            log: Some("resolve interface: no interface named does-not-exist0".to_string()),
        }
    );
    assert_eq!(driver.state(), &State::Stopped(EXIT_FAILURE));
    assert!(driver.is_stopped());
}

#[test]
fn channel_failure_ends_the_run_at_startup() {
    let mut driver = Driver::new(config(), RetryPolicy { max_retries: 5, backoff_ms: 10 });
    let list = interfaces();
    driver.step(Event::Interfaces(&list));
    assert_eq!(driver.state(), &State::Opening);
    assert_eq!(
        driver.step(Event::ChannelFailed { cause: "Operation not permitted" }),
        Step {
            action: Action::Exit { status: 1 },
            log: Some("open channel on eth0: Operation not permitted".to_string()),
        }
    );
    assert!(driver.is_stopped());
}

#[test]
fn malformed_frame_is_logged_and_skipped() {
    let mut driver = capturing(no_retry());
    let at = noon();
    let mut frame = TCP_FRAME;
    frame[14] = 0x46;
    assert_eq!(
        driver.step(Event::Frame { bytes: &frame, at: &at }),
        Step {
            action: Action::NextFrame { wait_ms: 0 },
            log: Some("decode frame: header needs 24 bytes, 20 captured".to_string()),
        }
    );
    assert_eq!(driver.state(), &State::Capturing);
    assert_eq!(
        driver.step(Event::Frame { bytes: &TCP_FRAME[..10], at: &at }),
        Step {
            action: Action::NextFrame { wait_ms: 0 },
            log: Some("decode frame: header needs 14 bytes, 10 captured".to_string()),
        }
    );
}

#[test]
fn unsupported_frame_is_skipped() {
    let mut driver = capturing(no_retry());
    let at = noon();
    let mut frame = TCP_FRAME;
    frame[12] = 0x86;
    frame[13] = 0xdd;
    assert_eq!(driver.step(Event::Frame { bytes: &frame, at: &at }), next_frame(0));
    assert_eq!(driver.state(), &State::Capturing);
}

#[test]
fn failed_send_is_retried_a_bounded_number_of_times() {
    let mut driver = publishing(RetryPolicy { max_retries: 3, backoff_ms: 250 });
    let message = Message::new(RECORD, "packets", "tracer");
    let mut attempts = 1;
    let mut waited_ms = 0;
    let mut rounds = 0;
    while !driver.is_stopped() {
        rounds += 1;
        assert!(rounds <= 4);
        let step = driver.step(Event::PublishFailed { cause: "timed out" });
        assert_eq!(step.log, Some("publish to packets: timed out".to_string()));
        match step.action {
            Action::Publish { message: again, wait_ms } => {
                assert_eq!(again, message);
                assert_eq!(wait_ms, 250);
                attempts += 1;
                waited_ms += wait_ms;
            }
            Action::Exit { status } => assert_eq!(status, 1),
            other => panic!("{:?}", other),
        }
    }
    assert_eq!(rounds, 4);
    assert_eq!(attempts, 4);
    assert_eq!(waited_ms, 750);
    assert_eq!(driver.state(), &State::Stopped(EXIT_FAILURE));
}

#[test]
fn failed_send_without_retries_is_fatal() {
    let mut driver = publishing(no_retry());
    assert_eq!(
        driver.step(Event::PublishFailed { cause: "broker rejected the message" }),
        Step {
            action: Action::Exit { status: 1 },
            log: Some("publish to packets: broker rejected the message".to_string()),
        }
    );
}

#[test]
fn acknowledged_retry_goes_on_with_fresh_retries() {
    let mut driver = publishing(RetryPolicy { max_retries: 1, backoff_ms: 50 });
    let step = driver.step(Event::PublishFailed { cause: "timed out" });
    assert!(matches!(step.action, Action::Publish { wait_ms: 50, .. }));
    assert_eq!(driver.step(Event::Published), next_frame(0));
    let at = noon();
    let step = driver.step(Event::Frame { bytes: &TCP_FRAME, at: &at });
    assert!(matches!(step.action, Action::Publish { wait_ms: 0, .. }));
    let step = driver.step(Event::PublishFailed { cause: "timed out" });
    assert!(matches!(step.action, Action::Publish { wait_ms: 50, .. }));
    let step = driver.step(Event::PublishFailed { cause: "timed out" });
    assert_eq!(step.action, Action::Exit { status: 1 });
}

#[test]
fn failed_read_is_retried_then_fatal() {
    let mut driver = capturing(RetryPolicy { max_retries: 2, backoff_ms: 100 });
    let retry = Step {
        action: Action::NextFrame { wait_ms: 100 },
        log: Some("capture on eth0: link is down".to_string()),
    };
    assert_eq!(driver.step(Event::CaptureFailed { cause: "link is down" }), retry);
    assert_eq!(driver.step(Event::CaptureFailed { cause: "link is down" }), retry);
    assert_eq!(
        driver.step(Event::CaptureFailed { cause: "link is down" }),
        Step {
            action: Action::Exit { status: 1 },
            log: Some("capture on eth0: link is down".to_string()),
        }
    );
    assert!(driver.is_stopped());
}

#[test]
fn a_frame_resets_the_read_retries() {
    let mut driver = capturing(RetryPolicy { max_retries: 1, backoff_ms: 100 });
    let at = noon();
    let mut arp = TCP_FRAME;
    arp[13] = 0x06;
    for _ in 0..5 {
        let step = driver.step(Event::CaptureFailed { cause: "again" });
        assert_eq!(step.action, Action::NextFrame { wait_ms: 100 });
        assert_eq!(driver.step(Event::Frame { bytes: &arp, at: &at }), next_frame(0));
    }
    assert_eq!(driver.state(), &State::Capturing);
}

#[test]
fn shutdown_ends_any_run_with_status_zero() {
    let exit = Step { action: Action::Exit { status: 0 }, log: None };
    let mut driver = Driver::new(config(), no_retry());
    assert_eq!(driver.step(Event::Shutdown), exit);
    assert_eq!(driver.state(), &State::Stopped(EXIT_OK));
    let mut driver = capturing(no_retry());
    assert_eq!(driver.step(Event::Shutdown), exit);
    let mut driver = publishing(no_retry());
    assert_eq!(driver.step(Event::Shutdown), exit);
    assert_eq!(driver.state(), &State::Stopped(0));
}

#[test]
fn a_stopped_driver_ignores_everything() {
    let mut driver = publishing(no_retry());
    driver.step(Event::PublishFailed { cause: "timed out" });
    assert_eq!(driver.state(), &State::Stopped(1));
    let list = interfaces();
    let at = noon();
    let ignored = Step { action: Action::Ignore, log: None };
    assert_eq!(driver.step(Event::Interfaces(&list)), ignored);
    assert_eq!(driver.step(Event::ChannelOpened), ignored);
    assert_eq!(driver.step(Event::Frame { bytes: &TCP_FRAME, at: &at }), ignored);
    assert_eq!(driver.step(Event::Published), ignored);
    assert_eq!(driver.step(Event::Shutdown), ignored);
    assert_eq!(driver.state(), &State::Stopped(1));
}

#[test]
fn events_out_of_turn_are_ignored() {
    let ignored = Step { action: Action::Ignore, log: None };
    let mut driver = Driver::new(config(), no_retry());
    let at = noon();
    assert_eq!(driver.step(Event::ChannelOpened), ignored);
    assert_eq!(driver.step(Event::Frame { bytes: &TCP_FRAME, at: &at }), ignored);
    assert_eq!(driver.step(Event::PublishFailed { cause: "x" }), ignored);
    assert_eq!(driver.state(), &State::Resolving);
    let mut driver = capturing(no_retry());
    let list = interfaces();
    assert_eq!(driver.step(Event::Interfaces(&list)), ignored);
    assert_eq!(driver.step(Event::Published), ignored);
    assert_eq!(driver.step(Event::ChannelFailed { cause: "x" }), ignored);
    assert_eq!(driver.state(), &State::Capturing);
}
