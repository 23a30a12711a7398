use backplane::open::{open_steps, Direction, OpenError, OpenStep};
use backplane::settings::StreamOption;
use backplane::stream_read::{
    complete_read, complete_stream_read, mark_end_of_data, null_read, prepare_read, store_datagram,
    StreamReadResult,
};
use backplane::stream_write::{complete_datagram_send, complete_write, null_send};
use backplane::buffer::buffer_length;
use bytes::BytesMut;

#[test]
fn stream_read_appends_exactly_what_was_read() {
    let mut buf = BytesMut::new();
    buf.extend_from_slice(b"ab");
    let old = prepare_read(&mut buf, 8);
    assert_eq!(old, 2);
    assert_eq!(&buf[..], &[b'a', b'b', 0, 0, 0, 0, 0, 0, 0, 0][..]);
    buf[2..5].copy_from_slice(b"xyz");
    let r = complete_read(&mut buf, old, Ok(3));
    assert_eq!(r, StreamReadResult::BytesRead(3));
    assert_eq!(&buf[..], b"abxyz");
}

#[test]
fn stream_read_error_leaves_no_room_behind() {
    let mut buf = BytesMut::new();
    buf.extend_from_slice(b"ab");
    let old = prepare_read(&mut buf, 4);
    let r = complete_read(&mut buf, old, Err("reset".to_string()));
    assert_eq!(r, StreamReadResult::Error("reset".to_string()));
    assert_eq!(&buf[..], b"ab");
}

#[test]
fn stream_read_count_past_room_is_an_error() {
    let mut buf = BytesMut::new();
    let old = prepare_read(&mut buf, 4);
    let r = complete_read(&mut buf, old, Ok(5));
    assert!(matches!(r, StreamReadResult::Error(_)));
    assert_eq!(buf.len(), 0);
}

#[test]
fn file_end_of_data_is_terminal_and_repeats() {
    let mut buf = BytesMut::new();
    buf.extend_from_slice(b"last");
    for _ in 0..3 {
        let old = prepare_read(&mut buf, 16);
        let r = complete_stream_read(&mut buf, old, Ok(0));
        assert_eq!(r, StreamReadResult::Finished);
        assert_eq!(&buf[..], b"last");
    }
}

#[test]
fn stream_source_reports_bytes_before_the_end() {
    let mut buf = BytesMut::new();
    let old = prepare_read(&mut buf, 16);
    buf[0] = 7;
    let r = complete_stream_read(&mut buf, old, Ok(1));
    assert_eq!(r, StreamReadResult::BytesRead(1));
    assert_eq!(&buf[..], &[7u8][..]);
}

#[test]
fn end_of_data_marking() {
    assert_eq!(mark_end_of_data(StreamReadResult::BytesRead(0)), StreamReadResult::Finished);
    assert_eq!(mark_end_of_data(StreamReadResult::BytesRead(4)), StreamReadResult::BytesRead(4));
    assert_eq!(mark_end_of_data(StreamReadResult::Finished), StreamReadResult::Finished);
    assert_eq!(
        mark_end_of_data(StreamReadResult::Error("e".to_string())),
        StreamReadResult::Error("e".to_string())
    );
}

#[test]
fn udp_read_holds_one_datagram_only() {
    let mut buf = BytesMut::new();
    buf.extend_from_slice(b"stale bytes");
    let r = store_datagram(&mut buf, b"first datagram");
    assert_eq!(r, StreamReadResult::BytesRead(14));
    assert_eq!(&buf[..], b"first datagram");
    let r = store_datagram(&mut buf, b"2nd");
    assert_eq!(r, StreamReadResult::BytesRead(3));
    assert_eq!(&buf[..], b"2nd");
}

#[test]
fn udp_empty_datagram_is_not_terminal() {
    let mut buf = BytesMut::new();
    buf.extend_from_slice(b"x");
    assert_eq!(store_datagram(&mut buf, b""), StreamReadResult::BytesRead(0));
    assert!(buf.is_empty());
}

#[test]
fn null_source_read_is_an_error() {
    assert!(matches!(null_read(), StreamReadResult::Error(_)));
}

#[test]
fn full_write_reports_every_byte() {
    for len in [0usize, 1, 4096, 1 << 20].iter() {
        assert_eq!(complete_write(Ok(()), *len), Ok(*len));
    }
    assert_eq!(complete_write(Err("broken pipe".to_string()), 10), Err("broken pipe".to_string()));
}

#[test]
fn datagram_send_must_be_whole() {
    assert_eq!(complete_datagram_send(Ok(5), 5), Ok(5));
    assert!(complete_datagram_send(Ok(3), 5).is_err());
    assert_eq!(complete_datagram_send(Err("too long".to_string()), 70000), Err("too long".to_string()));
}

#[test]
fn null_sink_takes_everything() {
    assert_eq!(null_send(b"abc"), Ok(3));
    assert_eq!(null_send(&[0u8; 4096]), Ok(4096));
    assert_eq!(null_send(b""), Ok(0));
}

#[test]
fn open_plans() {
    assert_eq!(open_steps(StreamOption::File, Direction::Read), vec![OpenStep::OpenFile]);
    assert_eq!(open_steps(StreamOption::File, Direction::Write), vec![OpenStep::CreateFile]);
    assert_eq!(open_steps(StreamOption::TcpClient, Direction::Read), vec![OpenStep::Connect]);
    assert_eq!(open_steps(StreamOption::TcpClient, Direction::Write), vec![OpenStep::Connect]);
    assert_eq!(
        open_steps(StreamOption::TcpServer, Direction::Read),
        vec![OpenStep::Bind, OpenStep::Accept]
    );
    assert_eq!(open_steps(StreamOption::Udp, Direction::Read), vec![OpenStep::BindEphemeral]);
    assert_eq!(
        open_steps(StreamOption::Udp, Direction::Write),
        vec![OpenStep::ParseAddress, OpenStep::BindEphemeral]
    );
}

#[test]
fn server_on_a_taken_port_fails_with_bind() {
    let steps = open_steps(StreamOption::TcpServer, Direction::Write);
    assert_eq!(steps[0], OpenStep::Bind);
    assert_eq!(steps[0].failure(false), OpenError::Bind);
    assert!(!steps.contains(&OpenStep::BindEphemeral));
}

#[test]
fn open_failures_map_to_errors() {
    assert_eq!(OpenStep::OpenFile.failure(true), OpenError::NotFound);
    assert_eq!(OpenStep::OpenFile.failure(false), OpenError::Io);
    assert_eq!(OpenStep::CreateFile.failure(true), OpenError::NotFound);
    assert_eq!(OpenStep::Connect.failure(false), OpenError::Connect);
    assert_eq!(OpenStep::Accept.failure(false), OpenError::Accept);
    assert_eq!(OpenStep::BindEphemeral.failure(false), OpenError::Bind);
    assert_eq!(OpenStep::ParseAddress.failure(false), OpenError::InvalidAddress);
}

#[test]
fn buffer_length_counts_bytes() {
    let mut buf = BytesMut::new();
    assert_eq!(buffer_length(&buf), 0);
    buf.extend_from_slice(b"abc");
    assert_eq!(buffer_length(&buf), 3);
    prepare_read(&mut buf, 5);
    assert_eq!(buffer_length(&buf), 8);
}
