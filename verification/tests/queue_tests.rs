use async_msg_queue::AsyncMsgQueue;
use async_msg_queue::MsgQueueError;

fn drain<T>(q: &mut AsyncMsgQueue<T>) -> (Vec<T>, Vec<MsgQueueError>) {
    let mut values = vec![];
    let mut signals = vec![];
    loop {
        match q.read() {
            Ok(v) => values.push(v),
            Err(MsgQueueError::EndOfTransmission) => {
                signals.push(MsgQueueError::EndOfTransmission);
                break;
            }
            Err(MsgQueueError::QueueTerminated) => {
                signals.push(MsgQueueError::QueueTerminated);
                break;
            }
            Err(e) => panic!("unexpected error {:?}", e),
        }
    }
    (values, signals)
}

#[test]
fn one_writer_one_reader() {
    let mut queue = AsyncMsgQueue::<String>::new();

    let messages: Vec<String> = vec!["msg1".into(), "msg2".into(), "msg3".into()];

    let writer_handle = queue.register_writer();
    assert!(writer_handle.is_ok());
    let writer_handle = writer_handle.unwrap();

    for message in messages.clone() {
        assert_eq!(queue.send(writer_handle, message), Ok(()));
    }

    assert_eq!(queue.deregister_writer(writer_handle), Ok(()));

    let (read_back, signals) = drain(&mut queue);
    assert_eq!(read_back, messages);
    assert_eq!(signals, vec![MsgQueueError::EndOfTransmission]);
}

#[test]
fn one_writer_two_readers() {
    let mut queue = AsyncMsgQueue::<usize>::new();

    let arr: Vec<usize> = (0..100).collect();

    let writer_handle = queue.register_writer();
    assert!(writer_handle.is_ok());
    let writer_handle = writer_handle.unwrap();

    for n in arr.clone() {
        assert_eq!(queue.send(writer_handle, n), Ok(()));
    }

    assert_eq!(queue.deregister_writer(writer_handle), Ok(()));

    // Two consumers take turns; each value reaches exactly one of them.
    let mut acc1: usize = 0;
    let mut acc2: usize = 0;
    let mut seen1: Vec<usize> = vec![];
    let mut seen2: Vec<usize> = vec![];
    let mut first_turn = true;
    let mut terminal_signals = 0;
    loop {
        match queue.read() {
            Ok(v) => {
                if first_turn {
                    acc1 += v;
                    seen1.push(v);
                } else {
                    acc2 += v;
                    seen2.push(v);
                }
                first_turn = !first_turn;
            }
            Err(MsgQueueError::EndOfTransmission) | Err(MsgQueueError::QueueTerminated) => {
                terminal_signals += 1;
                if terminal_signals == 2 {
                    break;
                }
            }
            Err(e) => panic!("unexpected error {:?}", e),
        }
    }

    assert_eq!(acc1 + acc2, arr.iter().sum());
    assert_eq!(acc1 + acc2, 4950);
    for n in arr {
        let in1 = seen1.contains(&n);
        let in2 = seen2.contains(&n);
        assert!(in1 != in2, "{} must reach exactly one consumer", n);
    }
}

#[test]
fn two_writers_one_reader() {
    let mut queue = AsyncMsgQueue::<usize>::new();

    let arr1 = vec![1, 2, 3];
    let arr2 = vec![4, 5, 6];

    let writer1_handle = queue.register_writer();
    let writer2_handle = queue.register_writer();
    assert!(writer1_handle.is_ok());
    assert!(writer2_handle.is_ok());
    let writer1_handle = writer1_handle.unwrap();
    let writer2_handle = writer2_handle.unwrap();

    // The two producers' sends interleave; each one's own order is kept.
    for k in 0..3 {
        assert_eq!(queue.send(writer1_handle, arr1[k]), Ok(()));
        assert_eq!(queue.send(writer2_handle, arr2[k]), Ok(()));
    }
    assert_eq!(queue.deregister_writer(writer1_handle), Ok(()));
    assert_eq!(queue.deregister_writer(writer2_handle), Ok(()));

    let (values, signals) = drain(&mut queue);
    let total: usize = values.iter().sum();
    assert_eq!(total, vec![1, 2, 3, 4, 5, 6].iter().sum());
    assert_eq!(signals, vec![MsgQueueError::EndOfTransmission]);

    let pos = |v: usize| values.iter().position(|&x| x == v).unwrap();
    assert!(pos(1) < pos(2) && pos(2) < pos(3));
    assert!(pos(4) < pos(5) && pos(5) < pos(6));
}

#[test]
fn two_writers_two_readers() {
    let mut queue = AsyncMsgQueue::<usize>::new();

    let writer1_handle = queue.register_writer();
    let writer2_handle = queue.register_writer();
    assert!(writer1_handle.is_ok());
    assert!(writer2_handle.is_ok());
    let writer1_handle = writer1_handle.unwrap();
    let writer2_handle = writer2_handle.unwrap();

    for n in vec![1, 2, 3] {
        assert_eq!(queue.send(writer1_handle, n), Ok(()));
    }
    for n in vec![4, 5, 6] {
        assert_eq!(queue.send(writer2_handle, n), Ok(()));
    }
    assert_eq!(queue.deregister_writer(writer1_handle), Ok(()));
    assert_eq!(queue.deregister_writer(writer2_handle), Ok(()));

    // Two consumers take turns until each sees a terminal signal.
    let mut acc1: usize = 0;
    let mut acc2: usize = 0;
    let mut first_turn = true;
    let mut terminal_signals = 0;
    let mut end_of_transmission_count = 0;
    while terminal_signals < 2 {
        match queue.read() {
            Ok(v) => {
                if first_turn {
                    acc1 += v;
                } else {
                    acc2 += v;
                }
                first_turn = !first_turn;
            }
            Err(MsgQueueError::EndOfTransmission) => {
                end_of_transmission_count += 1;
                terminal_signals += 1;
            }
            Err(MsgQueueError::QueueTerminated) => terminal_signals += 1,
            Err(e) => panic!("unexpected error {:?}", e),
        }
    }

    assert_eq!(acc1 + acc2, 1 + 2 + 3 + 4 + 5 + 6);
    assert_eq!(end_of_transmission_count, 1);
}
