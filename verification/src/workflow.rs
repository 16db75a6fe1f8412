use crate::clock::now_millis;
use crate::domain::new_subscriber::{form_fault, NewSubscriber};
use crate::domain::subscriber_email::email_syntax;
use crate::domain::subscriber_name::valid_name;
use crate::domain::validation::ValidationError;
use crate::notifier::{ConfirmationEmail, NotifierError};
use crate::random::is_version_4;
use crate::routes::subscriptions::SubscriptionFormData;
use crate::startup::ApplicationBaseUrl;
use crate::store::laws::{
    lemma_confirm_is_idempotent, lemma_confirm_sets_status, lemma_insert_keeps_wf,
    lemma_kept_token_resolves, lemma_malformed_token_is_unknown, lemma_row_is_found,
    lemma_token_keeps_wf,
};
use crate::store::{RepositoryError, Store, StoreState};
use crate::subscriber::{SubscriberId, SubscriberRow, SubscriptionStatus};
use crate::token::{well_formed_token, Token};
use vstd::prelude::*;
use vstd::string::StringExecFns;

verus! {

/// Why a submission did not go through.
#[derive(Debug)]
pub enum SubmitError {
    /// The name or the email address was refused.
    InvalidInput(ValidationError),
    /// The store refused the subscriber or could not keep the token.
    Repository(RepositoryError),
    /// The confirmation email was not sent.
    Notifier(NotifierError),
}

/// Why a confirmation did not go through.
#[derive(Clone, Copy, Debug, PartialEq, Eq, Structural)]
pub enum ConfirmError {
    /// The token was never issued, or is not even written as one.
    InvalidToken,
    /// The token was issued, but its subscriber is gone from the store.
    NotFound,
}

impl SubmitError {
    /// Whether the same submission may go through when it is tried again
    /// later: so it is where the store was unavailable and where the notifier
    /// failed for the moment.
    pub open spec fn retriable(self) -> bool {
        self == SubmitError::Repository(RepositoryError::Unavailable) || self
            == SubmitError::Notifier(NotifierError::Transient)
    }

    /// Tells whether trying again later may help.
    pub fn is_retriable(&self) -> (r: bool)
        ensures
            r == self.retriable(),
    {
        match self {
            SubmitError::Repository(RepositoryError::Unavailable) => true,
            SubmitError::Notifier(NotifierError::Transient) => true,
            _ => false,
        }
    }
}

/// What a submission left behind once the store has taken it: the new
/// subscriber, the token issued for it, and the email that is to be sent.
#[derive(Debug)]
pub struct Submission {
    pub subscriber_id: SubscriberId,
    pub subscribed_at: i64,
    pub token: Token,
    pub message: ConfirmationEmail,
}

/// What stands between the base URL and the token in a confirmation link.
pub open spec fn confirmation_path() -> Seq<char> {
    "/subscriptions/confirm?subscription_token="@
}

/// The confirmation link for `token` under `base_url`.
pub open spec fn link_text(base_url: Seq<char>, token: Seq<char>) -> Seq<char> {
    base_url + confirmation_path() + token
}

/// Builds the link that confirms the subscription `token` was issued for.
pub fn confirmation_link(base_url: &ApplicationBaseUrl, token: &Token) -> (link: String)
    ensures
        link@ == link_text(base_url.0@, token@),
{
    let mut link = base_url.0.clone();
    link.append("/subscriptions/confirm?subscription_token=");
    link.append(token.as_ref());
    link
}

/// The store after a submission was taken in: with the subscriber `row` added
/// and `token` kept for it.
pub open spec fn submitted(store: StoreState, row: SubscriberRow, token: Seq<char>) -> StoreState {
    store.after_insert(row).after_token(token, row.id)
}

/// Takes a validated subscriber into the store under `id`, as pending since
/// `subscribed_at`, issues a token for it and writes the confirmation email.
///
/// A subscriber whose identifier or address is taken is refused with
/// `Conflict`, and nothing changes. Where no token could be issued the error
/// is `Unavailable`, and the subscriber stays in the store. In a store without
/// tokens one is always issued.
pub fn enroll(
    store: &mut Store,
    subscriber: NewSubscriber,
    id: SubscriberId,
    subscribed_at: i64,
    base_url: &ApplicationBaseUrl,
) -> (r: Result<Submission, SubmitError>)
    ensures
        ({
            let before = old(store)@;
            let row = SubscriberRow::pending(
                id,
                subscriber.name@,
                subscriber.email@,
                subscribed_at,
            );
            match r {
                Ok(done) => {
                    &&& before.can_insert(id, subscriber.email@)
                    &&& !before.has_token(done.token@)
                    &&& final(store)@ == submitted(before, row, done.token@)
                    &&& done.subscriber_id == id
                    &&& done.subscribed_at == subscribed_at
                    &&& done.message.to@ == subscriber.email@
                    &&& done.message.link@ == link_text(base_url.0@, done.token@)
                },
                Err(e) => if before.can_insert(id, subscriber.email@) {
                    &&& e == SubmitError::Repository(RepositoryError::Unavailable)
                    &&& final(store)@ == before.after_insert(row)
                } else {
                    &&& e == SubmitError::Repository(RepositoryError::Conflict)
                    &&& final(store)@ == before
                },
            }
        }),
        old(store)@.can_insert(id, subscriber.email@) && old(store)@.tokens.len() == 0 ==> r is Ok,
{
    let to = subscriber.email.clone();
    match store.insert_pending(id, subscriber.name, subscriber.email, subscribed_at) {
        Ok(()) => {},
        Err(e) => {
            return Err(SubmitError::Repository(e));
        },
    }
    let token = match store.issue(id) {
        Ok(token) => token,
        Err(e) => {
            return Err(SubmitError::Repository(e));
        },
    };
    let link = confirmation_link(base_url, &token);
    let message = ConfirmationEmail { to, link };
    Ok(Submission { subscriber_id: id, subscribed_at, token, message })
}

/// Handles a sign-up: validates the name and the email address, takes the
/// subscriber into the store as pending under a new identifier, issues a
/// token and writes the confirmation email. Sending it is the caller's part;
/// `conclude_submission` says what becomes of the submission then.
///
/// An input that is refused leaves the store as it was. So does an address
/// that is registered already: it is refused with `Conflict`. Into an empty
/// store every valid submission is taken.
pub fn submit_subscription(
    store: &mut Store,
    raw_name: String,
    raw_email: String,
    base_url: &ApplicationBaseUrl,
) -> (r: Result<Submission, SubmitError>)
    ensures
        ({
            let before = old(store)@;
            let fault = form_fault(raw_name@, raw_email@);
            match r {
                Ok(done) => {
                    &&& fault is None
                    &&& is_version_4(done.subscriber_id.0)
                    &&& before.can_insert(done.subscriber_id, raw_email@)
                    &&& !before.has_token(done.token@)
                    &&& final(store)@ == submitted(
                        before,
                        SubscriberRow::pending(
                            done.subscriber_id,
                            raw_name@,
                            raw_email@,
                            done.subscribed_at,
                        ),
                        done.token@,
                    )
                    &&& done.message.to@ == raw_email@
                    &&& done.message.link@ == link_text(base_url.0@, done.token@)
                },
                Err(SubmitError::InvalidInput(e)) => {
                    &&& fault == Some((e.rule, e.input@))
                    &&& final(store)@ == before
                },
                Err(SubmitError::Repository(RepositoryError::Conflict)) => {
                    &&& fault is None
                    &&& final(store)@ == before
                },
                Err(SubmitError::Repository(RepositoryError::Unavailable)) => {
                    &&& fault is None
                    &&& exists|id: SubscriberId, at: i64|
                        {
                            &&& before.can_insert(id, raw_email@)
                            &&& final(store)@ == before.after_insert(
                                #[trigger] SubscriberRow::pending(id, raw_name@, raw_email@, at),
                            )
                        }
                },
                Err(_) => false,
            }
        }),
        form_fault(raw_name@, raw_email@) is None && old(store)@.has_email(raw_email@) ==> r
            matches Err(SubmitError::Repository(RepositoryError::Conflict)),
        form_fault(raw_name@, raw_email@) is None && old(store)@ == StoreState::empty() ==> r is Ok,
{
    let form = SubscriptionFormData { name: raw_name, email: raw_email };
    let subscriber = match NewSubscriber::try_from(form) {
        Ok(subscriber) => subscriber,
        Err(e) => {
            return Err(SubmitError::InvalidInput(e));
        },
    };
    let id = SubscriberId::generate();
    let subscribed_at = now_millis();
    let r = enroll(store, subscriber, id, subscribed_at, base_url);
    proof {
        if r matches Err(SubmitError::Repository(RepositoryError::Unavailable)) {
            assert(final(store)@ == old(store)@.after_insert(
                SubscriberRow::pending(id, raw_name@, raw_email@, subscribed_at),
            ));
        }
    }
    r
}

/// What becomes of a submission once the notifier has answered: it stands
/// where the email went out, and fails with the notifier's error where it did
/// not. The store is not touched either way: what was taken in stays.
pub fn conclude_submission(sent: Result<(), NotifierError>) -> (r: Result<(), SubmitError>)
    ensures
        r == match sent {
            Ok(()) => Ok::<(), SubmitError>(()),
            Err(e) => Err(SubmitError::Notifier(e)),
        },
{
    match sent {
        Ok(()) => Ok(()),
        Err(e) => Err(SubmitError::Notifier(e)),
    }
}

/// What confirming with the text `token` returns on the store `store`.
pub open spec fn confirm_outcome(store: StoreState, token: Seq<char>) -> Result<(), ConfirmError> {
    match store.owner_of(token) {
        None => Err(ConfirmError::InvalidToken),
        Some(id) => if store.has_id(id) {
            Ok(())
        } else {
            Err(ConfirmError::NotFound)
        },
    }
}

/// What confirming with the text `token` makes of the store `store`.
pub open spec fn confirm_effect(store: StoreState, token: Seq<char>) -> StoreState {
    match store.owner_of(token) {
        None => store,
        Some(id) => store.after_confirm(id),
    }
}

/// Handles a confirmation: finds the subscriber that `token` was issued for
/// and confirms it. A token that leads nowhere is refused with
/// `InvalidToken`, and nothing changes.
pub fn confirm_subscription(store: &mut Store, token: &str) -> (r: Result<(), ConfirmError>)
    ensures
        r == confirm_outcome(old(store)@, token@),
        final(store)@ == confirm_effect(old(store)@, token@),
        !old(store)@.has_token(token@) ==> r == Err::<(), ConfirmError>(
            ConfirmError::InvalidToken,
        ) && final(store)@ == old(store)@,
{
    let id = match store.resolve(token) {
        Ok(id) => id,
        Err(_) => {
            return Err(ConfirmError::InvalidToken);
        },
    };
    match store.mark_confirmed(id) {
        Ok(()) => Ok(()),
        Err(_) => Err(ConfirmError::NotFound),
    }
}

/// A submission that went through can be confirmed: in the store that it
/// leaves, the token leads to the new subscriber, who is pending, and
/// confirming with the token succeeds and makes the subscriber confirmed.
pub proof fn lemma_submission_can_be_confirmed(
    store: StoreState,
    row: SubscriberRow,
    token: Seq<char>,
)
    requires
        store.wf(),
        valid_name(row.name),
        email_syntax(row.email),
        row.status == SubscriptionStatus::PendingConfirmation,
        store.can_insert(row.id, row.email),
        well_formed_token(token),
        !store.has_token(token),
    ensures
        ({
            let after = submitted(store, row, token);
            &&& after.wf()
            &&& after.owner_of(token) == Some(row.id)
            &&& after.row_of(row.id) == Some(row)
            &&& confirm_outcome(after, token) is Ok
            &&& confirm_effect(after, token).status_of(row.id) == Some(
                SubscriptionStatus::Confirmed,
            )
        }),
{
    let inserted = store.after_insert(row);
    let after = inserted.after_token(token, row.id);
    lemma_insert_keeps_wf(store, row);
    lemma_token_keeps_wf(inserted, token, row.id);
    lemma_kept_token_resolves(inserted, token, row.id, token);
    let last = store.subscribers.len() as int;
    lemma_row_is_found(after, last);
    lemma_confirm_sets_status(after, row.id, row.id);
}

/// Confirming is idempotent. Where confirming with a token succeeds, its
/// subscriber is confirmed afterwards; confirming with the same token once
/// more succeeds again and changes nothing.
pub proof fn lemma_confirming_twice(store: StoreState, token: Seq<char>)
    requires
        store.wf(),
        confirm_outcome(store, token) is Ok,
    ensures
        ({
            let id = store.owner_of(token)->0;
            let once = confirm_effect(store, token);
            &&& once.wf()
            &&& once.status_of(id) == Some(SubscriptionStatus::Confirmed)
            &&& confirm_outcome(once, token) is Ok
            &&& confirm_effect(once, token) == once
        }),
{
    let id = store.owner_of(token)->0;
    lemma_confirm_sets_status(store, id, id);
    lemma_confirm_is_idempotent(store, id);
}

/// Confirming with a token that was never issued fails with `InvalidToken`
/// and leaves the store as it was. So does confirming with a text that is not
/// written as a token.
pub proof fn lemma_unknown_token_changes_nothing(store: StoreState, token: Seq<char>)
    requires
        store.wf(),
        !store.has_token(token) || !well_formed_token(token),
    ensures
        confirm_outcome(store, token) == Err::<(), ConfirmError>(ConfirmError::InvalidToken),
        confirm_effect(store, token) == store,
{
    if !well_formed_token(token) {
        lemma_malformed_token_is_unknown(store, token);
    }
}

} // verus!
