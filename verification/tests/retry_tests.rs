use deploy_tool::retry::{retry, RetryBudget};
use std::cell::RefCell;

#[test]
fn retry_returns_the_first_success_without_a_pause() {
    let calls = RefCell::new(Vec::new());
    let r: Option<&str> = retry(RetryBudget::new(3, 2), |attempt, pause| -> Result<&str, ()> {
        calls.borrow_mut().push((attempt, pause));
        Ok("session")
    });
    assert_eq!(r, Some("session"));
    assert_eq!(*calls.borrow(), vec![(0, 0)]);
}

#[test]
fn retry_pauses_before_every_attempt_but_the_first() {
    let calls = RefCell::new(Vec::new());
    let r = retry(RetryBudget::new(3, 2), |attempt, pause| {
        calls.borrow_mut().push((attempt, pause));
        if attempt < 2 {
            Err("refused")
        } else {
            Ok(attempt * 10)
        }
    });
    assert_eq!(r, Some(20));
    assert_eq!(*calls.borrow(), vec![(0, 0), (1, 2), (2, 2)]);
}

#[test]
fn retry_gives_up_after_the_last_attempt() {
    let calls = RefCell::new(Vec::new());
    let r: Option<u8> = retry(RetryBudget::new(4, 7), |attempt, pause| -> Result<u8, u32> {
        calls.borrow_mut().push((attempt, pause));
        Err(attempt)
    });
    assert_eq!(r, None);
    assert_eq!(*calls.borrow(), vec![(0, 0), (1, 7), (2, 7), (3, 7)]);
}

#[test]
fn retry_without_attempts_calls_nothing() {
    let calls = RefCell::new(0);
    let r: Option<u8> = retry(RetryBudget::new(0, 7), |_, _| -> Result<u8, ()> {
        *calls.borrow_mut() += 1;
        Ok(1)
    });
    assert_eq!(r, None);
    assert_eq!(*calls.borrow(), 0);
}

#[test]
fn retry_with_one_attempt_never_pauses() {
    let pauses = RefCell::new(Vec::new());
    let r: Option<u8> = retry(RetryBudget::new(1, 7), |_, pause| -> Result<u8, ()> {
        pauses.borrow_mut().push(pause);
        Err(())
    });
    assert_eq!(r, None);
    assert_eq!(*pauses.borrow(), vec![0]);
}
