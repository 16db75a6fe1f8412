use zero2prod::domain::{NewSubscriber, SubscriberEmail, ValidationRule};
use zero2prod::notifier::NotifierError;
use zero2prod::routes::{confirm_status, subscribe_status, SubscriptionFormData};
use zero2prod::startup::ApplicationBaseUrl;
use zero2prod::store::{RepositoryError, Store};
use zero2prod::subscriber::{SubscriberId, SubscriptionStatus};
use zero2prod::token::Token;
use zero2prod::workflow::{
    conclude_submission, confirm_subscription, confirmation_link, enroll, submit_subscription,
    ConfirmError, SubmitError, Submission,
};

fn base_url() -> ApplicationBaseUrl {
    ApplicationBaseUrl("http://127.0.0.1".to_string())
}

fn email(raw: &str) -> SubscriberEmail {
    SubscriberEmail::parse(raw.to_string()).unwrap()
}

fn new_subscriber(name: &str, email: &str) -> NewSubscriber {
    let form = SubscriptionFormData { name: name.to_string(), email: email.to_string() };
    NewSubscriber::try_from(form).unwrap()
}

fn submit(store: &mut Store, name: &str, email: &str) -> Result<Submission, SubmitError> {
    submit_subscription(store, name.to_string(), email.to_string(), &base_url())
}

#[test]
fn a_valid_submission_is_answered_with_200() {
    let mut store = Store::new();
    let done = submit(&mut store, "kotleta", "2hcompany@gmail.com");
    assert!(done.is_ok());
    let outcome = conclude_submission(Ok(()));
    assert_eq!(200, subscribe_status(&outcome));
}

#[test]
fn a_valid_submission_is_kept_as_pending() {
    let mut store = Store::new();
    submit(&mut store, "kotleta", "2hcompany@gmail.com").unwrap();

    assert_eq!(store.subscriber_count(), 1);
    let saved = store.find_by_email(&email("2hcompany@gmail.com")).unwrap();
    assert_eq!(saved.email().as_ref(), "2hcompany@gmail.com");
    assert_eq!(saved.name().as_ref(), "kotleta");
    assert_eq!(saved.status().as_str(), "pending_confirmation");
}

#[test]
fn a_valid_submission_writes_one_confirmation_email() {
    let mut store = Store::new();
    let done = submit(&mut store, "lol", "kekovich@gmail.com").unwrap();
    assert_eq!(done.message.to.as_ref(), "kekovich@gmail.com");
    assert_eq!(store.token_count(), 1);
}

#[test]
fn the_confirmation_email_carries_the_link_with_the_token() {
    let mut store = Store::new();
    let done = submit(&mut store, "lol", "kekovich@gmail.com").unwrap();
    let link = done.message.link.clone();
    let token = link
        .strip_prefix("http://127.0.0.1/subscriptions/confirm?subscription_token=")
        .unwrap();
    assert_eq!(token, done.token.as_ref());
    assert_eq!(link, confirmation_link(&base_url(), &done.token));
}

#[test]
fn a_valid_submission_leaves_one_pending_subscriber_one_token_and_one_email() {
    let mut store = Store::new();
    let done = submit(&mut store, "kotleta", "2hcompany@gmail.com").unwrap();

    assert_eq!(store.subscriber_count(), 1);
    assert_eq!(store.token_count(), 1);
    let saved = store.find(done.subscriber_id).unwrap();
    assert_eq!(saved.name().as_ref(), "kotleta");
    assert_eq!(saved.email().as_ref(), "2hcompany@gmail.com");
    assert_eq!(saved.status(), SubscriptionStatus::PendingConfirmation);
    assert_eq!(saved.subscribed_at(), done.subscribed_at);
    // The moment of signing up is read from the clock: some time after 2020.
    assert!(done.subscribed_at > 1_577_836_800_000);
    assert_eq!((done.subscriber_id.0 >> 76) & 0xf, 4);

    assert_eq!(done.message.to.as_ref(), "2hcompany@gmail.com");
    let (before, query) = done.message.link.split_once('?').unwrap();
    assert_eq!(before, "http://127.0.0.1/subscriptions/confirm");
    let token = query.strip_prefix("subscription_token=").unwrap();
    assert_eq!(token.len(), 64);
    assert_eq!(store.resolve(token), Ok(done.subscriber_id));
}

#[test]
fn a_submission_with_a_bracketed_name_is_rejected_before_anything_is_kept() {
    let mut store = Store::new();
    let error = submit(&mut store, "[kotleta]", "2hcompany@gmail.com").unwrap_err();
    match &error {
        SubmitError::InvalidInput(e) => {
            assert_eq!(e.rule, ValidationRule::ForbiddenCharacter);
            assert_eq!(e.input, "[kotleta]");
        },
        other => panic!("unexpected error: {other:?}"),
    }
    assert_eq!(store.subscriber_count(), 0);
    assert_eq!(store.token_count(), 0);
    assert_eq!(400, subscribe_status(&Err(error)));
}

#[test]
fn a_submission_with_an_invalid_email_is_rejected_before_anything_is_kept() {
    let mut store = Store::new();
    for raw in ["notanemail", "@gmail.com", "", "  "] {
        let error = submit(&mut store, "kotleta", raw).unwrap_err();
        match &error {
            SubmitError::InvalidInput(e) => {
                assert_eq!(e.rule, ValidationRule::EmailSyntax);
                assert_eq!(e.input, raw);
            },
            other => panic!("unexpected error: {other:?}"),
        }
        assert!(!error.is_retriable());
        assert_eq!(400, subscribe_status(&Err(error)));
    }
    assert_eq!(store.subscriber_count(), 0);
    assert_eq!(store.token_count(), 0);
}

#[test]
fn a_submission_with_a_blank_or_overlong_name_is_rejected() {
    let mut store = Store::new();
    for (raw, rule) in [
        (String::new(), ValidationRule::BlankName),
        ("   ".to_string(), ValidationRule::BlankName),
        ("n".repeat(257), ValidationRule::NameTooLong),
    ] {
        match submit(&mut store, &raw, "2hcompany@gmail.com") {
            Err(SubmitError::InvalidInput(e)) => assert_eq!(e.rule, rule),
            other => panic!("unexpected outcome: {other:?}"),
        }
    }
    assert_eq!(store.subscriber_count(), 0);
}

#[test]
fn a_second_submission_with_the_same_email_is_refused_and_one_row_remains() {
    let mut store = Store::new();
    let first = submit(&mut store, "kotleta", "2hcompany@gmail.com").unwrap();
    let second = submit(&mut store, "another", "2hcompany@gmail.com").unwrap_err();
    assert!(matches!(second, SubmitError::Repository(RepositoryError::Conflict)));
    assert!(!second.is_retriable());
    assert_eq!(500, subscribe_status(&Err(second)));

    assert_eq!(store.subscriber_count(), 1);
    assert_eq!(store.token_count(), 1);
    let saved = store.find_by_email(&email("2hcompany@gmail.com")).unwrap();
    assert_eq!(saved.id(), first.subscriber_id);
    assert_eq!(saved.name().as_ref(), "kotleta");
    assert_eq!(store.resolve(first.token.as_ref()), Ok(first.subscriber_id));
}

#[test]
fn submissions_with_different_emails_are_all_taken() {
    let mut store = Store::new();
    let a = submit(&mut store, "kotleta", "2hcompany@gmail.com").unwrap();
    let b = submit(&mut store, "lol", "kekovich@gmail.com").unwrap();
    assert_ne!(a.subscriber_id, b.subscriber_id);
    assert_ne!(a.token, b.token);
    assert_eq!(store.subscriber_count(), 2);
    assert_eq!(store.token_count(), 2);
    assert_eq!(store.resolve(a.token.as_ref()), Ok(a.subscriber_id));
    assert_eq!(store.resolve(b.token.as_ref()), Ok(b.subscriber_id));
}

#[test]
fn enroll_takes_the_subscriber_under_the_identifier_and_moment_given() {
    let mut store = Store::new();
    let done = enroll(
        &mut store,
        new_subscriber("kotleta", "2hcompany@gmail.com"),
        SubscriberId(77),
        1_700_000_000_000,
        &ApplicationBaseUrl("https://news.example.com".to_string()),
    )
    .unwrap();
    assert_eq!(done.subscriber_id, SubscriberId(77));
    assert_eq!(done.subscribed_at, 1_700_000_000_000);
    assert_eq!(done.message.to.as_ref(), "2hcompany@gmail.com");
    assert_eq!(
        done.message.link,
        format!(
            "https://news.example.com/subscriptions/confirm?subscription_token={}",
            done.token.as_ref()
        )
    );
    let saved = store.find(SubscriberId(77)).unwrap();
    assert_eq!(saved.subscribed_at(), 1_700_000_000_000);
    assert_eq!(saved.status(), SubscriptionStatus::PendingConfirmation);
    assert_eq!(store.resolve(done.token.as_ref()), Ok(SubscriberId(77)));
}

#[test]
fn enroll_refuses_an_identifier_or_an_email_that_is_taken() {
    let mut store = Store::new();
    enroll(&mut store, new_subscriber("one", "a@example.com"), SubscriberId(1), 10, &base_url())
        .unwrap();
    let other = new_subscriber("two", "b@example.com");
    let same_id = enroll(&mut store, other, SubscriberId(1), 20, &base_url());
    assert!(matches!(same_id, Err(SubmitError::Repository(RepositoryError::Conflict))));
    let other = new_subscriber("two", "a@example.com");
    let same_email = enroll(&mut store, other, SubscriberId(2), 20, &base_url());
    assert!(matches!(same_email, Err(SubmitError::Repository(RepositoryError::Conflict))));
    assert_eq!(store.subscriber_count(), 1);
    assert_eq!(store.token_count(), 1);
}

#[test]
fn the_confirmation_link_is_the_base_url_the_path_and_the_token() {
    let token = Token::from_entropy(0, 0xabc);
    assert_eq!(
        confirmation_link(&ApplicationBaseUrl("https://example.com".to_string()), &token),
        format!(
            "https://example.com/subscriptions/confirm?subscription_token={}abc",
            "0".repeat(61)
        )
    );
    assert_eq!(
        confirmation_link(&ApplicationBaseUrl(String::new()), &token),
        format!("/subscriptions/confirm?subscription_token={}abc", "0".repeat(61))
    );
    assert_eq!(base_url().clone().0, "http://127.0.0.1");
}

#[test]
fn confirming_with_the_issued_token_confirms_the_subscriber() {
    let mut store = Store::new();
    let done = submit(&mut store, "kotleta", "2hcompany@gmail.com").unwrap();
    let other = submit(&mut store, "lol", "kekovich@gmail.com").unwrap();

    let outcome = confirm_subscription(&mut store, done.token.as_ref());
    assert_eq!(outcome, Ok(()));
    assert_eq!(200, confirm_status(&outcome));
    assert_eq!(store.find(done.subscriber_id).unwrap().status(), SubscriptionStatus::Confirmed);
    assert_eq!(
        store.find(other.subscriber_id).unwrap().status(),
        SubscriptionStatus::PendingConfirmation
    );
}

#[test]
fn confirming_again_with_the_same_token_still_succeeds() {
    let mut store = Store::new();
    let done = submit(&mut store, "kotleta", "2hcompany@gmail.com").unwrap();
    assert_eq!(confirm_subscription(&mut store, done.token.as_ref()), Ok(()));
    assert_eq!(confirm_subscription(&mut store, done.token.as_ref()), Ok(()));
    assert_eq!(store.find(done.subscriber_id).unwrap().status(), SubscriptionStatus::Confirmed);
    assert_eq!(store.subscriber_count(), 1);
    assert_eq!(store.token_count(), 1);
}

#[test]
fn confirming_with_a_token_that_was_never_issued_is_refused_and_changes_nothing() {
    let mut store = Store::new();
    let done = submit(&mut store, "kotleta", "2hcompany@gmail.com").unwrap();
    let mut unissued = Token::generate();
    while unissued == done.token {
        unissued = Token::generate();
    }
    for raw in [unissued.as_ref(), "", "garbage", "subscription_token"] {
        let outcome = confirm_subscription(&mut store, raw);
        assert_eq!(outcome, Err(ConfirmError::InvalidToken));
        assert_eq!(400, confirm_status(&outcome));
    }
    assert_eq!(store.subscriber_count(), 1);
    assert_eq!(store.token_count(), 1);
    assert_eq!(
        store.find(done.subscriber_id).unwrap().status(),
        SubscriptionStatus::PendingConfirmation
    );
}

#[test]
fn confirming_for_a_subscriber_that_is_gone_is_not_found() {
    let mut store = Store::new();
    let token = store.issue(SubscriberId(5)).unwrap();
    let outcome = confirm_subscription(&mut store, token.as_ref());
    assert_eq!(outcome, Err(ConfirmError::NotFound));
    assert_eq!(500, confirm_status(&outcome));
    assert_eq!(store.subscriber_count(), 0);
}

#[test]
fn a_submission_stands_or_falls_with_the_notifier() {
    assert!(conclude_submission(Ok(())).is_ok());
    let transient = conclude_submission(Err(NotifierError::Transient)).unwrap_err();
    assert!(matches!(transient, SubmitError::Notifier(NotifierError::Transient)));
    assert!(transient.is_retriable());
    assert_eq!(500, subscribe_status(&Err(transient)));
    let permanent = conclude_submission(Err(NotifierError::Permanent)).unwrap_err();
    assert!(matches!(permanent, SubmitError::Notifier(NotifierError::Permanent)));
    assert!(!permanent.is_retriable());
    assert_eq!(500, subscribe_status(&Err(permanent)));
}

#[test]
fn a_failed_email_leaves_the_subscriber_and_the_token_in_the_store() {
    let mut store = Store::new();
    let done = submit(&mut store, "kotleta", "2hcompany@gmail.com").unwrap();
    let outcome = conclude_submission(Err(NotifierError::Transient));
    assert!(outcome.is_err());
    assert_eq!(store.subscriber_count(), 1);
    assert_eq!(store.resolve(done.token.as_ref()), Ok(done.subscriber_id));
}

#[test]
fn only_unavailability_and_transient_failures_are_retriable() {
    assert!(SubmitError::Repository(RepositoryError::Unavailable).is_retriable());
    assert!(SubmitError::Notifier(NotifierError::Transient).is_retriable());
    assert!(!SubmitError::Repository(RepositoryError::Conflict).is_retriable());
    assert!(!SubmitError::Repository(RepositoryError::NotFound).is_retriable());
    assert!(!SubmitError::Notifier(NotifierError::Permanent).is_retriable());
    assert_eq!(500, subscribe_status(&Err(SubmitError::Repository(RepositoryError::Unavailable))));
    assert_eq!(200, subscribe_status(&Ok(())));
}
