use builder_api_client::{after_io_attempt, Step};
use std::io::{Error, ErrorKind};

#[test]
fn io_success_is_reported() {
    match after_io_attempt::<usize>(Ok(12)) {
        Step::Ready(Ok(n)) => assert_eq!(n, 12),
        other => panic!("unexpected step {:?}", other),
    }
}

#[test]
fn io_interrupted_is_retried() {
    let step = after_io_attempt::<usize>(Err(Error::new(ErrorKind::Interrupted, "signal")));
    assert!(matches!(step, Step::Retry));
    let step = after_io_attempt::<()>(Err(Error::from(ErrorKind::Interrupted)));
    assert!(matches!(step, Step::Retry));
}

#[test]
fn io_would_block_is_reported_unchanged() {
    match after_io_attempt::<usize>(Err(Error::new(ErrorKind::WouldBlock, "later"))) {
        Step::Ready(Err(e)) => {
            assert_eq!(e.kind(), ErrorKind::WouldBlock);
            assert_eq!(e.to_string(), "later");
        }
        other => panic!("unexpected step {:?}", other),
    }
}

#[test]
fn io_other_failures_are_reported_unchanged() {
    for kind in [ErrorKind::BrokenPipe, ErrorKind::UnexpectedEof, ErrorKind::Other, ErrorKind::TimedOut] {
        match after_io_attempt::<Vec<u8>>(Err(Error::new(kind, "failed"))) {
            Step::Ready(Err(e)) => assert_eq!(e.kind(), kind),
            other => panic!("unexpected step {:?}", other),
        }
    }
}

#[test]
fn retrying_a_std_read_until_it_is_not_interrupted() {
    struct Flaky {
        interruptions: usize,
        calls: usize,
    }
    impl std::io::Read for Flaky {
        fn read(&mut self, buf: &mut [u8]) -> std::io::Result<usize> {
            self.calls += 1;
            if self.interruptions > 0 {
                self.interruptions -= 1;
                return Err(Error::from(ErrorKind::Interrupted));
            }
            buf[0] = 9;
            Ok(1)
        }
    }
    let mut w = builder_api_client::AllowStdIo::new(Flaky { interruptions: 3, calls: 0 });
    let mut buf = [0u8; 4];
    let n = loop {
        match after_io_attempt(std::io::Read::read(w.get_mut(), &mut buf)) {
            Step::Retry => continue,
            Step::Ready(r) => break r.unwrap(),
        }
    };
    assert_eq!(n, 1);
    assert_eq!(buf[0], 9);
    assert_eq!(w.get_ref().calls, 4);
}
