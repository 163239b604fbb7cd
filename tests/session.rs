use netfilter_queue::codec::ParseError;
use netfilter_queue::frame::{decode_event_queue, find_attribute};
use netfilter_queue::handle::{typed_view, ChannelError, Dispatch, Handle, ProtocolFamily};
use netfilter_queue::ip::{IPHeader, IPPortHeader, Ipv4Address, Protocol};
use netfilter_queue::message::Message;
use netfilter_queue::queue::{Brake, CopyMode, Queue, QueueError};
use netfilter_queue::verdict::{verdict_request, QueueHandle, Verdict, VerdictRequest};

fn attribute(out: &mut Vec<u8>, kind: u16, data: &[u8]) {
    let len = (4 + data.len()) as u16;
    out.extend_from_slice(&len.to_le_bytes());
    out.extend_from_slice(&kind.to_le_bytes());
    out.extend_from_slice(data);
    while out.len() % 4 != 0 {
        out.push(0);
    }
}

fn event_frame(queue: u16, id: u32, payload: Option<&[u8]>) -> Vec<u8> {
    let mut attrs = Vec::new();
    let mut header = id.to_be_bytes().to_vec();
    header.extend_from_slice(&[0x08, 0x00, 1]);
    attribute(&mut attrs, 1, &header);
    attribute(&mut attrs, 11, &[0, 0, 0, 5]);
    if let Some(p) = payload {
        attribute(&mut attrs, 10, p);
    }
    let total = (20 + attrs.len()) as u32;
    let mut frame = total.to_le_bytes().to_vec();
    frame.extend_from_slice(&0x0300u16.to_le_bytes());
    frame.extend_from_slice(&[0, 0, 0, 0, 0, 0, 0, 0, 0, 0]);
    frame.extend_from_slice(&[2, 0]);
    frame.extend_from_slice(&queue.to_be_bytes());
    frame.extend_from_slice(&attrs);
    frame
}

fn ip_bytes(protocol: u8, src: [u8; 4], dst: [u8; 4]) -> Vec<u8> {
    let mut b = vec![0x45, 0, 0, 40, 0, 1, 0, 0, 64, protocol, 0, 0];
    b.extend_from_slice(&src);
    b.extend_from_slice(&dst);
    b
}

fn running_handle(queue: u16) -> Handle {
    let mut h = Handle::new();
    h.bind(ProtocolFamily::Inet, 0).unwrap();
    h.create_queue(queue, true).unwrap();
    h.start().unwrap();
    h
}

#[test]
fn frame_parses_queue_header_and_payload() {
    let payload = ip_bytes(17, [1, 2, 3, 4], [5, 6, 7, 8]);
    let frame = event_frame(9, 77, Some(&payload));
    assert_eq!(decode_event_queue(&frame), Some(9));
    let m = Message::new(&frame).unwrap();
    assert_eq!(m.queue_num, 9);
    assert_eq!(m.header().id(), 77);
    assert_eq!(m.header().hw_protocol(), 0x0800);
    assert_eq!(m.data, payload);
    let ip: IPHeader = m.payload().unwrap();
    assert_eq!(ip.protocol(), Protocol::Udp);
    assert_eq!(find_attribute(&frame, 20, 11), Some((36, 4)));
    assert_eq!(find_attribute(&frame, 20, 12), None);
}

#[test]
fn frame_errors() {
    assert!(matches!(Message::new(&[0u8; 10]), Err(ParseError::MalformedFrame)));
    let mut frame = event_frame(1, 5, None);
    frame[0] = frame[0].wrapping_add(1);
    assert!(matches!(Message::new(&frame), Err(ParseError::MalformedFrame)));
    let mut no_header = event_frame(1, 5, None);
    no_header[22] = 2;
    assert!(matches!(Message::new(&no_header), Err(ParseError::MissingHeader)));
    let mut short_header = event_frame(1, 5, None);
    short_header[20] = 10;
    assert!(matches!(Message::new(&short_header), Err(ParseError::Truncated)));
    let m = Message::new(&event_frame(1, 5, None)).unwrap();
    assert!(m.data.is_empty());
}

#[test]
fn brake_stops_after_that_packet() {
    let mut h = running_handle(0);
    let ip = ip_bytes(6, [10, 0, 0, 1], [10, 0, 0, 2]);
    let frames: Vec<Vec<u8>> = (1..=4u32).map(|id| event_frame(0, id, Some(&ip))).collect();
    let mut seen = Vec::new();
    for f in &frames {
        match h.dispatch(f) {
            Dispatch::Deliver(_, Ok(m)) => {
                seen.push(m.header.id());
                let b = if m.header.id() == 2 { Brake::Brake } else { Brake::Continue };
                h.handler_returned(b);
            }
            Dispatch::Stopped => break,
            _ => panic!("unexpected dispatch"),
        }
    }
    assert_eq!(seen, vec![1, 2]);
    assert!(matches!(h.dispatch(&frames[3]), Dispatch::Stopped));
    assert_eq!(Brake::Brake.status(), -1);
    assert_eq!(Brake::Continue.status(), 0);
}

#[test]
fn malformed_payload_reaches_handler_as_error_and_loop_goes_on() {
    let mut h = running_handle(3);
    let short = vec![0u8; 12];
    let good = ip_bytes(1, [1, 1, 1, 1], [2, 2, 2, 2]);
    let frames = vec![event_frame(3, 1, Some(&short)), event_frame(3, 2, Some(&good))];
    let mut results = Vec::new();
    for f in &frames {
        match h.dispatch(f) {
            Dispatch::Deliver(qh, message) => {
                assert_eq!(qh.queue_num, 3);
                let view = typed_view::<IPHeader>(&message);
                if let Ok(m) = &message {
                    let r: Result<IPHeader, ParseError> = m.payload();
                    results.push(r.map(|ip| ip.protocol()));
                }
                assert_eq!(view.is_some(), results.last().unwrap().is_ok());
                h.handler_returned(Brake::Continue);
            }
            _ => panic!("unexpected dispatch"),
        }
    }
    assert_eq!(results, vec![Err(ParseError::PayloadSizeMismatch), Ok(Protocol::Icmp)]);
    assert!(h.running);
}

#[test]
fn three_events_accepted_in_order() {
    let mut h = Handle::new();
    h.bind(ProtocolFamily::Inet, 0).unwrap();
    let mut q = h.create_queue(0, true).unwrap();
    let mode = CopyMode::sized::<IPHeader>();
    assert_eq!(mode, CopyMode::Packet(20));
    assert_eq!(mode.params(), (2, 20));
    q.set_mode_sized::<IPHeader>(0).unwrap();
    assert_eq!(q.mode, CopyMode::Packet(20));
    assert!(q.copies_exactly::<IPHeader>());
    h.start().unwrap();
    let addrs = [([10, 0, 0, 1], [10, 0, 0, 2]), ([172, 16, 0, 1], [8, 8, 8, 8]), (
        [192, 168, 1, 1],
        [1, 1, 1, 1],
    )];
    let protocols = [6u8, 17, 1];
    let ids = [1001u32, 1002, 1003];
    let mut seen = Vec::new();
    for k in 0..3 {
        let frame = event_frame(0, ids[k], Some(&ip_bytes(protocols[k], addrs[k].0, addrs[k].1)));
        match h.dispatch(&frame) {
            Dispatch::Deliver(qh, message) => {
                let (header, ip) = typed_view::<IPHeader>(&message).unwrap();
                seen.push(header.id());
                assert_eq!(ip.protocol(), Protocol::from_byte(protocols[k]));
                let (s, d) = addrs[k];
                assert_eq!(ip.source_ip(), Ipv4Address::new(s[0], s[1], s[2], s[3]));
                assert_eq!(ip.dest_ip(), Ipv4Address::new(d[0], d[1], d[2], d[3]));
                let req = verdict_request(qh, header.id(), Verdict::Accept, 0);
                assert_eq!(req, VerdictRequest { queue_num: 0, packet_id: ids[k], code: 1, mark: 0 });
                let mut expected = vec![0, 0, 0, 1];
                expected.extend_from_slice(&ids[k].to_be_bytes());
                assert_eq!(req.header_bytes(), expected);
                h.handler_returned(Brake::Continue);
            }
            _ => panic!("unexpected dispatch"),
        }
    }
    assert_eq!(seen, vec![1001, 1002, 1003]);
}

#[test]
fn port_header_on_short_payload_is_size_mismatch() {
    let mut h = Handle::new();
    h.bind(ProtocolFamily::Inet, 0).unwrap();
    let mut q = h.create_queue(0, true).unwrap();
    q.set_mode(CopyMode::Packet(24), 0).unwrap();
    assert!(q.copies_exactly::<IPPortHeader>());
    let frame = event_frame(0, 7, Some(&ip_bytes(6, [1, 2, 3, 4], [4, 3, 2, 1])));
    let m = Message::new(&frame).unwrap();
    let r: Result<IPPortHeader, ParseError> = m.payload();
    assert_eq!(r, Err(ParseError::PayloadSizeMismatch));
    assert!(typed_view::<IPPortHeader>(&Ok(m)).is_none());
}

#[test]
fn handle_lifecycle_errors() {
    let mut h = Handle::new();
    assert!(!h.is_bound());
    assert!(matches!(h.create_queue(0, true), Err(QueueError::NotBound)));
    assert_eq!(h.start(), Err(ChannelError::NotBound));
    assert_eq!(h.bind(ProtocolFamily::Inet6, -1), Err(ChannelError::BindFailed(-1)));
    assert!(!h.is_bound());
    h.bind(ProtocolFamily::Inet6, 0).unwrap();
    assert!(h.is_bound());
    let q = h.create_queue(4, true).unwrap();
    assert_eq!(q, Queue::new(4));
    assert_eq!(q.number(), 4);
    assert!(matches!(h.create_queue(4, true), Err(QueueError::CreateFailed)));
    assert!(matches!(h.create_queue(5, false), Err(QueueError::CreateFailed)));
    assert!(h.has_queue(4) && !h.has_queue(5));
    assert_eq!(h.destroy_queue(&q, -2), Err(QueueError::TeardownFailed(-2)));
    assert!(h.has_queue(4));
    assert_eq!(h.destroy_queue(&q, 0), Ok(()));
    assert!(!h.has_queue(4));
    assert_eq!(ProtocolFamily::Inet.code(), 2);
    assert_eq!(ProtocolFamily::Inet6.code(), 10);
    assert_eq!(ProtocolFamily::Bridge.code(), 7);
}

#[test]
fn dispatch_skips_unknown_and_malformed() {
    let h = running_handle(1);
    assert!(matches!(h.dispatch(&event_frame(2, 1, None)), Dispatch::UnknownQueue(2)));
    assert!(matches!(h.dispatch(&[1, 2, 3]), Dispatch::Skip(ParseError::MalformedFrame)));
    let idle = Handle::new();
    assert!(matches!(idle.dispatch(&event_frame(1, 1, None)), Dispatch::Stopped));
}

#[test]
fn queue_configuration_answers() {
    let mut q = Queue::new(1);
    assert_eq!(q.set_mode(CopyMode::Metadata, 5), Err(QueueError::SetModeFailed(5)));
    assert_eq!(q.mode, CopyMode::Nothing);
    q.set_mode(CopyMode::Metadata, 0).unwrap();
    assert_eq!(q.mode, CopyMode::Metadata);
    assert_eq!(q.set_mode_sized::<IPPortHeader>(-1), Err(QueueError::SetModeFailed(-1)));
    assert_eq!(q.set_max_length(100, -1), Err(QueueError::SetMaxLenFailed(-1)));
    assert_eq!(q.max_length, None);
    q.set_max_length(100, 0).unwrap();
    assert_eq!(q.max_length, Some(100));
    assert_eq!(CopyMode::Nothing.params(), (0, 0));
    assert_eq!(CopyMode::Metadata.params(), (1, 0));
    assert_eq!(CopyMode::Packet(24).params(), (2, 24));
}

#[test]
fn verdict_codes() {
    assert_eq!(Verdict::Drop.code(), 0);
    assert_eq!(Verdict::Accept.code(), 1);
    assert_eq!(Verdict::Requeue(5).code(), 0x0005_0003);
    assert_eq!(Verdict::from_code(0x0005_0003), Some(Verdict::Requeue(5)));
    assert_eq!(Verdict::from_code(1), Some(Verdict::Accept));
    assert_eq!(Verdict::from_code(0), Some(Verdict::Drop));
    assert_eq!(Verdict::from_code(2), None);
    let req = verdict_request(QueueHandle { queue_num: 2 }, 0x01020304, Verdict::Requeue(7), 9);
    assert_eq!(req.header_bytes(), vec![0, 7, 0, 3, 1, 2, 3, 4]);
    assert_eq!(req.mark, 9);
}
