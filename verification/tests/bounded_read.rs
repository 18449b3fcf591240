use fallible::read::{limit_size, read_outcome, read_to_end_with_limit};
use fallible::try_read_to_end;
use std::io::Read;

struct Broken {
    served: bool,
}

impl Read for Broken {
    fn read(&mut self, buf: &mut [u8]) -> std::io::Result<usize> {
        if self.served || buf.len() < 2 {
            return Err(std::io::Error::new(std::io::ErrorKind::Other, "broken"));
        }
        self.served = true;
        buf[0] = b'o';
        buf[1] = b'k';
        Ok(2)
    }
}

#[test]
fn limit_size_keeps_the_limit() {
    assert_eq!(limit_size(0), Some(0));
    assert_eq!(limit_size(5), Some(5));
    assert_eq!(limit_size(u32::MAX as u64), Some(u32::MAX as usize));
}

#[test]
fn limit_size_refuses_what_usize_cannot_hold() {
    let widest = usize::MAX as u64;
    assert_eq!(limit_size(widest), Some(usize::MAX));
    if widest < u64::MAX {
        assert_eq!(limit_size(widest + 1), None);
        assert_eq!(limit_size(u64::MAX), None);
    }
}

#[test]
fn read_appends_to_what_the_buffer_holds() {
    let mut src = b"world!".take(5);
    let mut buf = b"hello ".to_vec();
    assert_eq!(try_read_to_end(&mut src, &mut buf), Ok(5));
    assert_eq!(buf, b"hello world");
    assert_eq!(src.limit(), 0);
}

#[test]
fn read_stops_at_the_end_of_a_short_source() {
    let mut src = b"abc".take(100);
    let mut buf = Vec::new();
    assert_eq!(try_read_to_end(&mut src, &mut buf), Ok(3));
    assert_eq!(buf, b"abc");
    assert!(buf.capacity() >= 100);
}

#[test]
fn read_of_an_empty_limit_reads_nothing() {
    let mut src = b"abc".take(0);
    let mut buf = b"x".to_vec();
    assert_eq!(try_read_to_end(&mut src, &mut buf), Ok(0));
    assert_eq!(buf, b"x");
}

#[test]
fn read_fails_before_reading_when_the_room_cannot_be_had() {
    let mut src = b"1234567890".take(usize::MAX as u64);
    let mut buf = b"kept".to_vec();
    let cap = buf.capacity();
    assert_eq!(try_read_to_end(&mut src, &mut buf), Err(()));
    assert_eq!(buf, b"kept");
    assert_eq!(buf.capacity(), cap);
    assert_eq!(src.limit(), usize::MAX as u64);
    assert_eq!(src.into_inner().len(), 10);
}

#[test]
fn read_with_limit_fails_when_the_buffer_cannot_hold_the_limit() {
    let mut src = b"1234567890".take(5);
    let mut buf = b"ab".to_vec();
    assert_eq!(read_to_end_with_limit(&mut src, u64::MAX, &mut buf), Err(()));
    assert_eq!(buf, b"ab");
    assert_eq!(src.limit(), 5);
    assert_eq!(read_to_end_with_limit(&mut src, 5, &mut buf), Ok(5));
    assert_eq!(buf, b"ab12345");
}

#[test]
fn read_error_is_reported_and_keeps_what_was_read() {
    let mut src = Broken { served: false }.take(10);
    let mut buf = b"so far: ".to_vec();
    assert_eq!(try_read_to_end(&mut src, &mut buf), Err(()));
    assert_eq!(buf, b"so far: ok");
}

#[test]
fn read_outcome_keeps_the_count() {
    assert_eq!(read_outcome(Ok(0)), Ok(0));
    assert_eq!(read_outcome(Ok(12345)), Ok(12345));
}

#[test]
fn read_outcome_folds_every_error() {
    let refused = std::io::Error::new(std::io::ErrorKind::PermissionDenied, "refused");
    assert_eq!(read_outcome(Err(refused)), Err(()));
    let short = std::io::Error::from(std::io::ErrorKind::UnexpectedEof);
    assert_eq!(read_outcome(Err(short)), Err(()));
}
