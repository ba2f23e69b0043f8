use gossip_failure_detector::addr::PeerAddr;
use gossip_failure_detector::failure_detector::FailureDetector;
use gossip_failure_detector::time::Instant;
use gossip_failure_detector::transport::{
    frame_length, length_prefix, DATAGRAM_BUFFER_SIZE, LENGTH_PREFIX_SIZE,
};
use gossip_failure_detector::wire::{decode, encode};

#[test]
fn usage_udp_example() {
    let mut failure_detector = FailureDetector::builder(PeerAddr::v4(127, 0, 0, 1, 8080)).build();
    failure_detector.start(Instant::from_nanos(0));
    let round = failure_detector.tick(Instant::from_nanos(1_000_000_000));
    assert!(round.targets.is_empty());

    // what a datagram transport sends and receives
    let datagram = encode(&round.message).unwrap();
    assert!(datagram.len() <= DATAGRAM_BUFFER_SIZE);
    let mut buf = vec![0; DATAGRAM_BUFFER_SIZE];
    buf[..datagram.len()].copy_from_slice(&datagram);
    let message = decode(&buf[..datagram.len()]).unwrap();
    assert_eq!(message.from, PeerAddr::v4(127, 0, 0, 1, 8080));
    assert_eq!(message.gossip_counts.get(&PeerAddr::v4(127, 0, 0, 1, 8080)), Some(&1));
    failure_detector.handle_gossip(&message, Instant::from_nanos(1_000_000_000));
    assert_eq!(failure_detector.len(), 1);
}

#[test]
fn usage_tcp_example() {
    let mut failure_detector = FailureDetector::builder(PeerAddr::v4(127, 0, 0, 1, 8080)).build();
    failure_detector.start(Instant::from_nanos(0));
    let round = failure_detector.tick(Instant::from_nanos(1_000_000_000));

    // what a stream transport writes: the length, then the message
    let bytes = encode(&round.message).unwrap();
    let mut stream: Vec<u8> = Vec::new();
    stream.extend_from_slice(&length_prefix(bytes.len()));
    stream.extend_from_slice(&bytes);

    // and what it reads
    let mut len_bytes = [0u8; LENGTH_PREFIX_SIZE];
    len_bytes.copy_from_slice(&stream[..LENGTH_PREFIX_SIZE]);
    let len = frame_length(&len_bytes);
    assert_eq!(len, bytes.len());
    let buffer = &stream[LENGTH_PREFIX_SIZE..LENGTH_PREFIX_SIZE + len];
    let message = decode(buffer).unwrap();
    assert_eq!(message.from, PeerAddr::v4(127, 0, 0, 1, 8080));
    failure_detector.handle_gossip(&message, Instant::from_nanos(1_000_000_000));
    assert_eq!(failure_detector.len(), 1);
}
