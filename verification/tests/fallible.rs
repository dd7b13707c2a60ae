use aflpp_custom_mutator::fallible::{
    describe, fuzz, fuzz_count, init, introspection, queue_get, queue_new_entry, settle, Adapted,
    FallibleCustomMutator, HANDLER_RETURNED,
};
use aflpp_custom_mutator::{FuzzResult, NulTerminated};
use std::cell::RefCell;
use std::rc::Rc;

/// An error that carries the log that its handler writes to.
#[derive(Debug)]
struct Failure {
    code: u32,
    log: Rc<RefCell<Vec<u32>>>,
}

/// A mutator that fails where it is asked to: at `init` on an odd seed, and
/// at every other operation while `failing` is set.
struct Brittle {
    failing: bool,
    log: Rc<RefCell<Vec<u32>>>,
    calls: u32,
    note: Vec<u8>,
}

impl Brittle {
    fn fail<T>(&self, code: u32) -> Result<T, Failure> {
        Err(Failure { code, log: self.log.clone() })
    }
}

impl FallibleCustomMutator for Brittle {
    type Host = Rc<RefCell<Vec<u32>>>;
    type TErr = Failure;

    fn handle_err(err: Failure) {
        err.log.borrow_mut().push(err.code);
    }

    fn init(afl: &'static Rc<RefCell<Vec<u32>>>, seed: u32) -> Result<Self, Failure> {
        if seed % 2 == 1 {
            return Err(Failure { code: seed, log: afl.clone() });
        }
        Ok(Brittle { failing: false, log: afl.clone(), calls: 0, note: b"brittle\0".to_vec() })
    }

    fn fuzz_count(&mut self, buffer: &[u8]) -> Result<u32, Failure> {
        self.calls += 1;
        if self.failing {
            return self.fail(100);
        }
        Ok(buffer.len() as u32)
    }

    fn fuzz(&mut self, buffer: &mut [u8], _add_buff: Option<&[u8]>, _max_size: usize) -> Result<FuzzResult<'_>, Failure> {
        self.calls += 1;
        if self.failing {
            return self.fail(101);
        }
        if buffer.is_empty() {
            return Ok(FuzzResult::Fail);
        }
        buffer[0] = 0xff;
        Ok(FuzzResult::InPlace)
    }

    fn queue_new_entry(
        &mut self,
        _filename_new_queue: NulTerminated<'_>,
        _filename_orig_queue: Option<NulTerminated<'_>>,
    ) -> Result<(), Failure> {
        self.calls += 1;
        if self.failing {
            return self.fail(102);
        }
        Ok(())
    }

    fn queue_get(&mut self, filename: NulTerminated<'_>) -> Result<bool, Failure> {
        self.calls += 1;
        if self.failing {
            return self.fail(103);
        }
        Ok(filename.to_bytes().len() % 2 == 0)
    }

    fn describe(&mut self, _max_description: usize) -> Result<Option<NulTerminated<'_>>, Failure> {
        self.calls += 1;
        if self.failing {
            return self.fail(104);
        }
        Ok(NulTerminated::from_bytes_with_nul(&self.note))
    }

    fn introspection(&mut self) -> Result<Option<NulTerminated<'_>>, Failure> {
        self.calls += 1;
        if self.failing {
            return self.fail(105);
        }
        Ok(None)
    }
}

/// A mutator that keeps every operation that is provided.
struct Plain;

impl FallibleCustomMutator for Plain {
    type Host = ();
    type TErr = String;

    fn handle_err(_err: String) {}

    fn init(_afl: &'static (), _seed: u32) -> Result<Self, String> {
        Ok(Plain)
    }

    fn fuzz(&mut self, _buffer: &mut [u8], _add_buff: Option<&[u8]>, _max_size: usize) -> Result<FuzzResult<'_>, String> {
        Ok(FuzzResult::InPlace)
    }
}

fn host() -> &'static Rc<RefCell<Vec<u32>>> {
    Box::leak(Box::new(Rc::new(RefCell::new(Vec::new()))))
}

fn brittle(log: &'static Rc<RefCell<Vec<u32>>>) -> Brittle {
    match init::<Brittle>(log, 2) {
        Adapted::Forward(mutator) => mutator,
        Adapted::HandlerReturned => panic!("{}", HANDLER_RETURNED),
    }
}

#[test]
fn the_abort_message() {
    assert_eq!(HANDLER_RETURNED, "Error handler did not panic");
}

#[test]
fn settle_forwards_a_value_unchanged() {
    let log = host();
    assert!(matches!(settle::<Brittle, u32>(Ok(17)), Adapted::Forward(17)));
    assert!(matches!(settle::<Brittle, bool>(Ok(false)), Adapted::Forward(false)));
    assert!(matches!(settle::<Brittle, ()>(Ok(())), Adapted::Forward(())));
    assert!(log.borrow().is_empty());
}

#[test]
fn settle_hands_an_error_to_the_handler_once() {
    let log = host();
    let outcome: Result<u32, Failure> = Err(Failure { code: 7, log: log.clone() });
    assert!(matches!(settle::<Brittle, u32>(outcome), Adapted::HandlerReturned));
    assert_eq!(*log.borrow(), vec![7]);
}

#[test]
fn init_forwards_the_mutator() {
    let log = host();
    match init::<Brittle>(log, 4) {
        Adapted::Forward(mutator) => {
            assert!(!mutator.failing);
            assert_eq!(mutator.calls, 0);
        }
        Adapted::HandlerReturned => panic!("{}", HANDLER_RETURNED),
    }
    assert!(log.borrow().is_empty());
}

#[test]
fn init_that_fails_reaches_the_handler() {
    let log = host();
    assert!(matches!(init::<Brittle>(log, 5), Adapted::HandlerReturned));
    assert_eq!(*log.borrow(), vec![5]);
}

#[test]
fn operations_that_succeed_are_forwarded() {
    let log = host();
    let mut mutator = brittle(log);
    assert!(matches!(fuzz_count(&mut mutator, &[1, 2, 3]), Adapted::Forward(3)));
    let mut buf = vec![1u8, 2];
    assert!(matches!(fuzz(&mut mutator, &mut buf, None, 16), Adapted::Forward(FuzzResult::InPlace)));
    assert_eq!(buf, vec![0xffu8, 2]);
    let mut empty: Vec<u8> = Vec::new();
    assert!(matches!(fuzz(&mut mutator, &mut empty, None, 16), Adapted::Forward(FuzzResult::Fail)));
    let odd = NulTerminated::from_bytes_with_nul(b"odd\0").unwrap();
    let even = NulTerminated::from_bytes_with_nul(b"even\0").unwrap();
    assert!(matches!(queue_new_entry(&mut mutator, odd, Some(even)), Adapted::Forward(())));
    assert!(matches!(queue_get(&mut mutator, odd), Adapted::Forward(false)));
    assert!(matches!(queue_get(&mut mutator, even), Adapted::Forward(true)));
    match describe(&mut mutator, 64) {
        Adapted::Forward(Some(text)) => assert_eq!(text.to_bytes(), &b"brittle"[..]),
        other => panic!("{:?}", other),
    }
    assert!(matches!(introspection(&mut mutator), Adapted::Forward(None)));
    assert_eq!(mutator.calls, 8);
    assert!(log.borrow().is_empty());
}

#[test]
fn an_operation_that_fails_reaches_the_handler_once_with_its_error() {
    let log = host();
    let mut mutator = brittle(log);
    mutator.failing = true;
    assert!(matches!(fuzz_count(&mut mutator, &[1, 2, 3]), Adapted::HandlerReturned));
    assert_eq!(*log.borrow(), vec![100]);
    assert_eq!(mutator.calls, 1);
}

#[test]
fn every_operation_that_fails_reaches_the_handler() {
    let log = host();
    let mut mutator = brittle(log);
    mutator.failing = true;
    let path = NulTerminated::from_bytes_with_nul(b"path\0").unwrap();
    let mut buf = vec![1u8, 2];
    assert!(matches!(fuzz(&mut mutator, &mut buf, None, 16), Adapted::HandlerReturned));
    assert_eq!(buf, vec![1u8, 2]);
    assert!(matches!(queue_new_entry(&mut mutator, path, None), Adapted::HandlerReturned));
    assert!(matches!(queue_get(&mut mutator, path), Adapted::HandlerReturned));
    assert!(matches!(describe(&mut mutator, 64), Adapted::HandlerReturned));
    assert!(matches!(introspection(&mut mutator), Adapted::HandlerReturned));
    assert_eq!(*log.borrow(), vec![101, 102, 103, 104, 105]);
    assert_eq!(mutator.calls, 5);
}

#[test]
fn provided_operations_succeed() {
    let mut mutator = match init::<Plain>(&(), 1) {
        Adapted::Forward(mutator) => mutator,
        Adapted::HandlerReturned => panic!("{}", HANDLER_RETURNED),
    };
    let path = NulTerminated::from_bytes_with_nul(b"path\0").unwrap();
    assert!(matches!(fuzz_count(&mut mutator, &[1, 2, 3]), Adapted::Forward(1)));
    assert!(matches!(queue_new_entry(&mut mutator, path, None), Adapted::Forward(())));
    assert!(matches!(queue_get(&mut mutator, path), Adapted::Forward(true)));
    assert!(matches!(describe(&mut mutator, 64), Adapted::Forward(None)));
    assert!(matches!(introspection(&mut mutator), Adapted::Forward(None)));
}
