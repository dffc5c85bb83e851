use hinix::pipe::pipe;
use hinix::ErrorKind;

#[test]
fn test_pipe() {
    let (mut wr_pipe, mut rd_pipe) = pipe().unwrap();

    wr_pipe.write(&[0x55u8]).unwrap();

    let mut buf = [0u8; 1];
    assert_eq!(1, rd_pipe.read(&mut buf).unwrap());
    assert_eq!(0x55, buf[0]);
}

#[test]
fn test_eof_on_drop() {
    let (wr_pipe, mut rd_pipe) = pipe().unwrap();

    drop(wr_pipe);

    let mut buf = [0u8; 1];
    assert_eq!(0, rd_pipe.read(&mut buf).unwrap());
}

#[test]
fn ends_are_distinct_descriptors() {
    let (wr, rd) = pipe().unwrap();
    assert!(wr.as_raw_fd() >= 0);
    assert!(rd.as_raw_fd() >= 0);
    assert_ne!(wr.as_raw_fd(), rd.as_raw_fd());
}

#[test]
fn bytes_arrive_in_write_order() {
    let (mut wr, mut rd) = pipe().unwrap();
    assert_eq!(Ok(7), wr.write(b"hello, "));
    assert_eq!(Ok(4), wr.write(b"pipe"));
    wr.flush().unwrap();
    drop(wr);
    let mut got = Vec::new();
    let mut buf = [0u8; 4];
    loop {
        let n = rd.read(&mut buf).unwrap();
        if n == 0 {
            break;
        }
        got.extend_from_slice(&buf[..n]);
    }
    assert_eq!(b"hello, pipe".to_vec(), got);
}

#[test]
fn write_after_reader_closed_is_broken_pipe() {
    let (mut wr, rd) = pipe().unwrap();
    drop(rd);
    assert_eq!(Err(ErrorKind::BrokenPipe), wr.write(b"x"));
}

#[test]
fn empty_write_takes_nothing() {
    let (mut wr, _rd) = pipe().unwrap();
    assert_eq!(Ok(0), wr.write(&[]));
}
