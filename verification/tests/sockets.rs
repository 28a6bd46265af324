use tacky_borders::iocp::{
    is_prune_due, overlapped_outcome, sockaddr_un, socket_outcome, timeout_ms, OverlappedContext,
    SinkError, SinkStep, SocketPathTooLong, UnixStream, UnixStreamSink, ACCEPT_BUFFER_LEN,
    BUFFER_SIZE, PRUNE_INTERVAL_NS, STOP_PACKET_KEY, UNIX_ADDR_LEN,
};
use tacky_borders::winsock::{init, InitStep};

#[test]
fn paths_fill_the_address_from_the_front() {
    let address = sockaddr_un(b"C:\\a\xff").unwrap();
    assert_eq!(address[0], 'C' as i8);
    assert_eq!(address[4], -1);
    assert!(address[5..].iter().all(|byte| *byte == 0));
    assert!(sockaddr_un(&[b'x'; 108]).is_ok());
    assert_eq!(sockaddr_un(&[b'x'; 109]), Err(SocketPathTooLong));
    assert_eq!(SocketPathTooLong.message(), "socket path is too long");
    assert_eq!(ACCEPT_BUFFER_LEN, ((UNIX_ADDR_LEN + 16) * 2) as usize);
}

#[test]
fn time_limits_keep_their_lowest_bits() {
    assert_eq!(timeout_ms(None), u32::MAX);
    assert_eq!(timeout_ms(Some(1000)), 1000);
    assert_eq!(timeout_ms(Some(0x1_0000_0005)), 5);
}

#[test]
fn socket_answers_are_errors_or_counts() {
    assert_eq!(socket_outcome(-1, 10061), Err(10061));
    assert_eq!(socket_outcome(0, 10061), Ok(0));
    assert_eq!(socket_outcome(512, 0), Ok(512));
}

#[test]
fn pending_operations_have_not_failed() {
    assert_eq!(overlapped_outcome(true, 997, 0), Ok(0));
    assert_eq!(overlapped_outcome(true, 10054, 0), Err(10054));
    assert_eq!(overlapped_outcome(false, 10054, 8), Ok(8));
}

#[test]
fn streams_hand_out_their_buffer_once() {
    let mut stream = UnixStream::new(17u8);
    assert!(stream.take_overlapped_buffer().is_none());
    stream.overlapped_context.flags = 9;
    stream.overlapped_context.begin_read(vec![1, 2, 3]);
    assert_eq!(stream.overlapped_context.flags, 0);
    assert_eq!(stream.take_overlapped_buffer(), Some(vec![1, 2, 3]));
    assert!(stream.take_overlapped_buffer().is_none());
    assert_eq!(stream.socket, 17);

    let mut context = OverlappedContext::new(Some(vec![4]));
    context.flags = 2;
    context.begin_write();
    assert_eq!(context.flags, 0);
    assert_eq!(context.buffer, Some(vec![4]));
}

#[test]
fn pruning_waits_for_more_than_ten_minutes() {
    assert!(!is_prune_due(0));
    assert!(!is_prune_due(PRUNE_INTERVAL_NS));
    assert!(is_prune_due(PRUNE_INTERVAL_NS + 1));
    assert_eq!(PRUNE_INTERVAL_NS, 10 * 60 * 1_000_000_000);
}

#[test]
fn a_stream_is_accepted_read_and_handed_on() {
    let mut sink: UnixStreamSink<&str> = UnixStreamSink::new(1);
    sink.queue_accept(10, "first");

    match sink.on_completion(1) {
        Ok(SinkStep::Read { token, stream, buffer }) => {
            assert_eq!((token, stream), (10, "first"));
            assert_eq!(buffer, vec![0u8; BUFFER_SIZE]);
            sink.queue_read(token, stream);
        }
        _ => panic!("the stream was accepted"),
    }
    sink.queue_accept(11, "second");

    match sink.on_completion(10) {
        Ok(SinkStep::Deliver { stream }) => assert_eq!(stream, "first"),
        _ => panic!("the stream was read"),
    }
    sink.recycle(vec![9]);

    match sink.on_completion(1) {
        Ok(SinkStep::Read { stream, buffer, .. }) => {
            assert_eq!(stream, "second");
            assert_eq!(buffer, vec![9]);
        }
        _ => panic!("the stream was accepted"),
    }
    assert!(!sink.wants_cleanup());
    assert!(sink.is_drained());
}

#[test]
fn completions_of_nothing_are_errors() {
    let mut sink: UnixStreamSink<u8> = UnixStreamSink::new(1);
    assert!(matches!(sink.on_completion(1), Err(SinkError::NoStream)));
    assert!(matches!(sink.on_completion(5), Err(SinkError::UnknownStream)));
    assert_eq!(sink.on_cleanup_completion(5), Err(SinkError::UnknownStream));
    assert_eq!(sink.on_cleanup_completion(1), Ok(()));
}

#[test]
fn the_first_of_two_streams_with_one_key_is_handed_on() {
    let mut sink: UnixStreamSink<u8> = UnixStreamSink::new(1);
    sink.queue_read(5, 50);
    sink.queue_read(5, 51);
    assert!(matches!(sink.on_completion(5), Ok(SinkStep::Deliver { stream: 50 })));
    assert!(matches!(sink.on_completion(5), Ok(SinkStep::Deliver { stream: 51 })));
}

#[test]
fn a_stop_packet_leads_to_the_clean_up() {
    let mut sink: UnixStreamSink<u8> = UnixStreamSink::new(1);
    sink.queue_read(5, 50);
    sink.queue_accept(6, 60);
    assert!(matches!(sink.on_completion(STOP_PACKET_KEY), Ok(SinkStep::Stop)));
    assert!(sink.wants_cleanup());
    assert!(!sink.is_drained());
    assert_eq!(sink.on_cleanup_completion(5), Ok(()));
    assert_eq!(sink.on_cleanup_completion(1), Ok(()));
    assert!(sink.is_drained());
}

#[test]
fn pruning_leaves_one_spare_buffer() {
    let mut sink: UnixStreamSink<u8> = UnixStreamSink::new(1);
    sink.prune();
    sink.recycle(vec![1]);
    sink.recycle(vec![2]);
    sink.prune();
    sink.queue_accept(5, 50);
    sink.queue_accept(6, 60);
    match sink.on_completion(1) {
        Ok(SinkStep::Read { buffer, .. }) => assert_eq!(buffer, vec![1]),
        _ => panic!("a stream was accepted"),
    }
    match sink.on_completion(1) {
        Ok(SinkStep::Read { buffer, .. }) => assert_eq!(buffer.len(), BUFFER_SIZE),
        _ => panic!("a stream was accepted"),
    }
}

#[test]
fn the_second_of_two_threads_undoes_its_start() {
    let mut initialized = false;
    let mut started = 0;
    let mut threads = [InitStep::Load, InitStep::Load];
    for turn in [0, 1, 0, 1, 0, 1, 1] {
        let step = threads[turn];
        threads[turn] = init(step, initialized);
        match step {
            InitStep::Startup => started += 1,
            InitStep::Swap => initialized = true,
            InitStep::Cleanup => started -= 1,
            InitStep::Load | InitStep::Done => {}
        }
    }
    assert_eq!(threads, [InitStep::Done, InitStep::Done]);
    assert_eq!(started, 1);
    assert_eq!(init(InitStep::Load, initialized), InitStep::Done);
}

#[test]
fn buffers_keep_their_length_from_read_to_read() {
    let mut sink: UnixStreamSink<u8> = UnixStreamSink::new(1);
    for round in 0..4 {
        sink.queue_accept(5, round);
        match sink.on_completion(1) {
            Ok(SinkStep::Read { buffer, .. }) => {
                assert_eq!(buffer.len(), BUFFER_SIZE);
                sink.recycle(buffer);
            }
            _ => panic!("a stream was accepted"),
        }
        sink.prune();
    }
}
