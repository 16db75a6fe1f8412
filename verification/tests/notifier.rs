use zero2prod::notifier::{delivery_outcome, Delivery, NotifierError};

#[test]
fn an_answer_in_the_two_hundreds_is_a_success() {
    for status in [200, 201, 202, 204, 299] {
        assert_eq!(delivery_outcome(Delivery::Answered(status)), Ok(()));
    }
}

#[test]
fn no_answer_and_faults_of_the_transport_are_transient() {
    assert_eq!(delivery_outcome(Delivery::NoAnswer), Err(NotifierError::Transient));
    for status in [408, 429, 500, 502, 503, 504, 599] {
        assert_eq!(delivery_outcome(Delivery::Answered(status)), Err(NotifierError::Transient));
    }
}

#[test]
fn every_other_answer_is_permanent() {
    for status in [
        0, 100, 199, 300, 301, 400, 401, 403, 404, 407, 409, 422, 428, 430, 499, 600, u16::MAX,
    ] {
        assert_eq!(delivery_outcome(Delivery::Answered(status)), Err(NotifierError::Permanent));
    }
}

#[test]
fn every_status_has_exactly_one_outcome() {
    let mut successes = 0;
    let mut transient = 0;
    let mut permanent = 0;
    for status in 0..=u16::MAX {
        match delivery_outcome(Delivery::Answered(status)) {
            Ok(()) => successes += 1,
            Err(NotifierError::Transient) => transient += 1,
            Err(NotifierError::Permanent) => permanent += 1,
        }
    }
    assert_eq!(successes, 100);
    assert_eq!(transient, 102);
    assert_eq!(permanent, 65536 - 202);
}
