use hinix::msgqueue::{
    create_attr, is_valid_name, message_prefix, message_text, queue_geometry, Access, MqAttr,
    MsgQueue, OpenFlags,
};
use hinix::ErrorKind;

const NAME: &str = "/rust_unit_test";
const N: usize = 8;
const SZ: usize = 512;

/// A fresh handle on the named queue, non-blocking and emptied.
fn empty_queue(name: &str, nmsg: usize, maxsz: usize) -> MsgQueue {
    let mut mq = MsgQueue::create(name, nmsg, maxsz).unwrap();
    mq.set_nonblock().unwrap();
    let mut buf = vec![0u8; mq.msg_size()];
    while mq.receive(&mut buf).is_ok() {}
    assert_eq!(0, mq.get_attr().unwrap().curmsgs());
    mq
}

#[test]
fn test_create_open() {
    let mq = MsgQueue::create(NAME, N, SZ).unwrap();

    assert_eq!(N, mq.max_msg());
    assert_eq!(SZ, mq.msg_size());

    assert!(MsgQueue::create_exclusive(NAME, N, SZ).is_err());

    let mq = MsgQueue::open(NAME).unwrap();

    assert_eq!(N, mq.max_msg());
    assert_eq!(SZ, mq.msg_size());
}

#[test]
fn test_read_write() {
    let mut wr_arr = [0u8; SZ];
    let mut rd_arr = [0u8; SZ];

    for i in 0..SZ {
        wr_arr[i] = i as u8;
    }

    let mq = MsgQueue::create(NAME, N, SZ).unwrap();

    let attr = mq.get_attr().unwrap();
    let mut n = attr.curmsgs();

    while n != 0 {
        mq.receive(&mut rd_arr).unwrap();
        n -= 1;
    }

    let attr = mq.get_attr().unwrap();
    assert_eq!(attr.curmsgs(), 0);

    mq.send(&wr_arr).unwrap();

    let n = mq.receive(&mut rd_arr).unwrap();
    assert_eq!(n, SZ);
    assert_eq!(rd_arr, wr_arr);
}

#[test]
fn test_read_write_string() {
    const NAME: &str = "/rust_str_unit_test";

    let mq = MsgQueue::create(NAME, N, SZ).unwrap();

    while mq.get_attr().unwrap().curmsgs() != 0 {
        let mut rd_arr = [0u8; SZ];
        mq.receive(&mut rd_arr).unwrap();
    }

    const MSG: &str = "Hello, world!";
    mq.send(MSG.as_bytes()).unwrap();

    let msg = mq.receive_string().unwrap();
    assert_eq!(MSG.to_string(), msg);
}

#[test]
fn full_queue_refuses_then_takes_after_a_receive() {
    let mq = empty_queue("/hinix_full_test", 4, 512);
    assert_eq!(4, mq.max_msg());
    assert_eq!(512, mq.msg_size());
    for i in 0..4u8 {
        mq.send(&[i]).unwrap();
    }
    assert_eq!(Err(ErrorKind::WouldBlock), mq.send(&[4]));
    let mut buf = [0u8; 512];
    assert_eq!(Ok(1), mq.receive(&mut buf));
    assert_eq!(0, buf[0]);
    assert_eq!(Ok(()), mq.send(&[4]));
    assert_eq!(4, mq.get_attr().unwrap().curmsgs());
}

#[test]
fn messages_come_by_priority_then_in_send_order() {
    let mq = empty_queue("/hinix_prio_test", 8, 64);
    mq.send_with_priority(b"one", 1).unwrap();
    mq.send_with_priority(b"five", 5).unwrap();
    mq.send_with_priority(b"three", 3).unwrap();
    let mut buf = [0u8; 64];
    let mut prio = 0u32;
    let mut order = Vec::new();
    for _ in 0..3 {
        mq.receive_with_priority(&mut buf, &mut prio).unwrap();
        order.push(prio);
    }
    assert_eq!(vec![5, 3, 1], order);

    mq.send_with_priority(b"first", 2).unwrap();
    mq.send_with_priority(b"second", 2).unwrap();
    assert_eq!(b"first".to_vec(), mq.receive_bytes().unwrap());
    assert_eq!(b"second".to_vec(), mq.receive_bytes().unwrap());
    assert_eq!(Err(ErrorKind::WouldBlock), mq.receive_bytes());
}

#[test]
fn open_sees_the_creators_geometry() {
    let creator = MsgQueue::create("/hinix_geom_test", 6, 128).unwrap();
    let other = MsgQueue::open("/hinix_geom_test").unwrap();
    assert_eq!(creator.max_msg(), other.max_msg());
    assert_eq!(creator.msg_size(), other.msg_size());
    assert_eq!(6, other.max_msg());
    assert_eq!(128, other.msg_size());
    // Creating an existing queue keeps its geometry, whatever is asked for.
    let again = MsgQueue::create("/hinix_geom_test", 3, 64).unwrap();
    assert_eq!(6, again.max_msg());
    assert_eq!(128, again.msg_size());
}

#[test]
fn too_large_message_is_refused_and_not_queued() {
    let mq = empty_queue("/hinix_large_test", 4, 16);
    assert_eq!(Err(ErrorKind::MessageTooLarge), mq.send(&[7u8; 17]));
    assert_eq!(0, mq.get_attr().unwrap().curmsgs());
    assert_eq!(Ok(()), mq.send(&[7u8; 16]));
    assert_eq!(1, mq.get_attr().unwrap().curmsgs());
}

#[test]
fn short_receive_buffer_is_refused() {
    let mq = empty_queue("/hinix_small_buf_test", 4, 32);
    mq.send(b"x").unwrap();
    let mut buf = [9u8; 31];
    assert_eq!(Err(ErrorKind::BufferTooSmall), mq.receive(&mut buf));
    assert_eq!([9u8; 31], buf);
    assert_eq!(1, mq.get_attr().unwrap().curmsgs());
}

#[test]
fn malformed_names_are_refused() {
    for name in ["noslash", "/a/b", "/", "", "//x", "/a\0b"] {
        assert_eq!(ErrorKind::InvalidName, MsgQueue::open(name).unwrap_err());
        assert_eq!(ErrorKind::InvalidName, MsgQueue::create(name, 4, 16).unwrap_err());
    }
}

#[test]
fn missing_queue_is_not_found() {
    assert_eq!(ErrorKind::NotFound, MsgQueue::open("/hinix_no_such_queue").unwrap_err());
}

#[test]
fn exclusive_create_of_existing_queue_already_exists() {
    let _mq = MsgQueue::create("/hinix_excl_test", 4, 16).unwrap();
    assert_eq!(
        ErrorKind::AlreadyExists,
        MsgQueue::create_exclusive("/hinix_excl_test", 4, 16).unwrap_err()
    );
}

#[test]
fn oversized_geometry_is_refused() {
    let too_big = (i64::MAX as usize) + 1;
    assert_eq!(ErrorKind::Os(22), MsgQueue::create("/hinix_huge_test", too_big, 16).unwrap_err());
    assert_eq!(ErrorKind::Os(22), MsgQueue::create("/hinix_huge_test", 4, too_big).unwrap_err());
}

#[test]
fn closed_queue_is_not_found() {
    let mut mq = MsgQueue::create("/hinix_closed_test", 4, 16).unwrap();
    assert!(mq.is_open());
    assert_eq!(Ok(()), mq.close());
    assert!(!mq.is_open());
    assert_eq!(4, mq.max_msg());
    assert_eq!(Err(ErrorKind::NotFound), mq.close());
    assert_eq!(Err(ErrorKind::NotFound), mq.send(b"x"));
    let mut buf = [0u8; 16];
    assert_eq!(Err(ErrorKind::NotFound), mq.receive(&mut buf));
    assert_eq!(ErrorKind::NotFound, mq.get_attr().unwrap_err());
    assert_eq!(ErrorKind::NotFound, mq.set_nonblock().unwrap_err());
    assert_eq!(ErrorKind::NotFound, mq.remove_nonblock().unwrap_err());
    assert_eq!(Err(ErrorKind::NotFound), mq.receive_bytes());
    assert_eq!(Err(ErrorKind::NotFound), mq.receive_string());
}

#[test]
fn nonblock_flag_is_toggled() {
    let mut mq = MsgQueue::create("/hinix_flag_test", 4, 16).unwrap();
    mq.set_nonblock().unwrap();
    assert_eq!(0o4000, mq.get_attr().unwrap().flags());
    let before = mq.remove_nonblock().unwrap();
    assert_eq!(0o4000, before.flags());
    assert_eq!(0, mq.get_attr().unwrap().flags());
}

#[test]
fn invalid_utf8_message_is_refused() {
    let mq = empty_queue("/hinix_utf8_test", 4, 16);
    mq.send(&[0xff, 0xfe]).unwrap();
    assert_eq!(Err(ErrorKind::Os(22)), mq.receive_string());
}

#[test]
fn name_check() {
    assert!(is_valid_name("/q"));
    assert!(is_valid_name("/queue-1.é"));
    assert!(!is_valid_name("/"));
    assert!(!is_valid_name("q"));
    assert!(!is_valid_name("/q/"));
    assert!(!is_valid_name("/q\0"));
}

#[test]
fn geometry_from_attributes() {
    let a = MqAttr { flags: 0, maxmsg: 10, msgsize: 8192, curmsgs: 3 };
    assert_eq!(Ok((10, 8192)), queue_geometry(&a));
    let bad = MqAttr { flags: 0, maxmsg: -1, msgsize: 8192, curmsgs: 0 };
    assert_eq!(Err(ErrorKind::Io), queue_geometry(&bad));
    let bad = MqAttr { flags: 0, maxmsg: 1, msgsize: -5, curmsgs: 0 };
    assert_eq!(Err(ErrorKind::Io), queue_geometry(&bad));
}

#[test]
fn text_of_messages() {
    assert_eq!(Ok("héllo".to_string()), message_text("héllo".as_bytes().to_vec()));
    assert_eq!(Ok(String::new()), message_text(Vec::new()));
    assert_eq!(Err(ErrorKind::Os(22)), message_text(vec![0x61, 0xc3]));
}

#[test]
fn open_flag_words() {
    assert_eq!(2, OpenFlags::read_write().bits());
    let f = OpenFlags {
        access: Access::WriteOnly,
        create: true,
        exclusive: true,
        nonblock: true,
        cloexec: false,
    };
    assert_eq!(1 | 0o100 | 0o200 | 0o4000, f.bits());
    let f = OpenFlags { access: Access::ReadOnly, cloexec: true, ..OpenFlags::read_write() };
    assert_eq!(0o2000000, f.bits());
}

#[test]
fn attributes_snapshot_matches_cached_geometry() {
    let mq = empty_queue("/hinix_snapshot_test", 5, 100);
    mq.send(b"a").unwrap();
    mq.send(b"b").unwrap();
    let a = mq.get_attr().unwrap();
    assert_eq!(mq.max_msg() as i64, a.maxmsg());
    assert_eq!(mq.msg_size() as i64, a.msgsize());
    assert_eq!(2, a.curmsgs());
}

#[test]
fn received_bytes_are_exactly_the_message() {
    let mq = empty_queue("/hinix_bytes_test", 4, 64);
    mq.send(&[1, 2, 3]).unwrap();
    mq.send(&[]).unwrap();
    assert_eq!(Ok(vec![1, 2, 3]), mq.receive_bytes());
    assert_eq!(Ok(Vec::new()), mq.receive_bytes());
}

#[test]
fn creation_attributes() {
    assert_eq!(
        MqAttr { flags: 0, maxmsg: 8, msgsize: 512, curmsgs: 0 },
        create_attr(8, 512)
    );
}

#[test]
fn prefix_of_a_receive_buffer() {
    let buf = [5u8, 6, 7, 8];
    assert_eq!(vec![5, 6], message_prefix(&buf, 2));
    assert_eq!(Vec::<u8>::new(), message_prefix(&buf, 0));
    assert_eq!(buf.to_vec(), message_prefix(&buf, 4));
}
