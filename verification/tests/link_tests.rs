use blucher::link::{
    link_local_config, Link, LinkAction, LinkEvent, LinkPhase, ReadOutcome, ReaderPhase, LINK_PREFIX_LEN,
};

fn serving(capacity: usize) -> Link {
    let mut link = Link::new(capacity);
    assert_eq!(link.step(LinkEvent::Accepted), LinkAction::Serve);
    link
}

#[test]
fn link_local_setup() {
    let config = link_local_config([169, 254, 1, 1]);
    assert_eq!(config.address, [169, 254, 1, 1]);
    assert_eq!(config.prefix_len, 16);
    assert_eq!(LINK_PREFIX_LEN, 16);
    assert!(config.gateway.is_none());
    assert!(config.dns_servers.is_empty());
}

#[test]
fn new_link_listens_with_led_off() {
    let link = Link::new(64);
    assert_eq!(link.phase, LinkPhase::Listening);
    assert_eq!(link.capacity, 64);
    assert!(!link.led_on());
}

#[test]
fn accept_failure_listens_again() {
    let mut link = Link::new(64);
    assert_eq!(link.step(LinkEvent::AcceptFailed), LinkAction::Listen);
    assert_eq!(link.phase, LinkPhase::Listening);
    assert!(!link.led_on());
    assert_eq!(link.step(LinkEvent::Accepted), LinkAction::Serve);
    assert!(link.led_on());
}

#[test]
fn queued_command_ends_connection() {
    let mut link = serving(64);
    assert_eq!(link.step(LinkEvent::ReadDone(ReadOutcome::Received(5))), LinkAction::Decode(5));
    assert_eq!(link.phase, LinkPhase::Serving(ReaderPhase::Decoding));
    assert_eq!(link.step(LinkEvent::DecodeDone(true)), LinkAction::Queue);
    assert_eq!(link.step(LinkEvent::QueueDone(true)), LinkAction::Close);
    assert_eq!(link.phase, LinkPhase::Listening);
    assert!(!link.led_on());
}

#[test]
fn undecodable_frame_keeps_reading() {
    let mut link = serving(64);
    assert_eq!(link.step(LinkEvent::ReadDone(ReadOutcome::Received(3))), LinkAction::Decode(3));
    assert_eq!(link.step(LinkEvent::DecodeDone(false)), LinkAction::Read);
    assert_eq!(link.phase, LinkPhase::Serving(ReaderPhase::Reading));
    assert!(link.led_on());
}

#[test]
fn full_queue_loses_command_keeps_reading() {
    let mut link = serving(64);
    link.step(LinkEvent::ReadDone(ReadOutcome::Received(64)));
    link.step(LinkEvent::DecodeDone(true));
    assert_eq!(link.step(LinkEvent::QueueDone(false)), LinkAction::Read);
    assert_eq!(link.phase, LinkPhase::Serving(ReaderPhase::Reading));
}

#[test]
fn end_of_stream_closes() {
    let mut link = serving(64);
    assert_eq!(link.step(LinkEvent::ReadDone(ReadOutcome::Received(0))), LinkAction::Close);
    assert_eq!(link.phase, LinkPhase::Listening);
}

#[test]
fn read_failure_closes() {
    let mut link = serving(64);
    assert_eq!(link.step(LinkEvent::ReadDone(ReadOutcome::Failed)), LinkAction::Close);
    assert!(!link.led_on());
}

#[test]
fn writer_keeps_writing_until_it_fails() {
    let mut link = serving(64);
    link.step(LinkEvent::ReadDone(ReadOutcome::Received(2)));
    assert_eq!(link.step(LinkEvent::WriteDone(true)), LinkAction::Write);
    assert_eq!(link.phase, LinkPhase::Serving(ReaderPhase::Decoding));
    assert_eq!(link.step(LinkEvent::WriteDone(false)), LinkAction::Close);
    assert_eq!(link.phase, LinkPhase::Listening);
}

#[test]
fn expects_matches_phase() {
    let mut link = Link::new(8);
    assert!(link.expects(&LinkEvent::Accepted));
    assert!(link.expects(&LinkEvent::AcceptFailed));
    assert!(!link.expects(&LinkEvent::ReadDone(ReadOutcome::Failed)));
    assert!(!link.expects(&LinkEvent::WriteDone(true)));
    link.step(LinkEvent::Accepted);
    assert!(!link.expects(&LinkEvent::Accepted));
    assert!(link.expects(&LinkEvent::ReadDone(ReadOutcome::Received(8))));
    assert!(!link.expects(&LinkEvent::ReadDone(ReadOutcome::Received(9))));
    assert!(link.expects(&LinkEvent::WriteDone(false)));
    assert!(!link.expects(&LinkEvent::DecodeDone(true)));
    assert!(!link.expects(&LinkEvent::QueueDone(true)));
    link.step(LinkEvent::ReadDone(ReadOutcome::Received(8)));
    assert!(link.expects(&LinkEvent::DecodeDone(false)));
    assert!(!link.expects(&LinkEvent::ReadDone(ReadOutcome::Failed)));
    link.step(LinkEvent::DecodeDone(true));
    assert!(link.expects(&LinkEvent::QueueDone(false)));
    assert!(!link.expects(&LinkEvent::DecodeDone(true)));
}
