pub mod laws;
pub mod view;

pub use view::{StoreState, TokenRow};

use view::{email_at, id_at, token_at};

use crate::domain::subscriber_email::{email_syntax, SubscriberEmail};
use crate::domain::subscriber_name::{valid_name, SubscriberName};
use crate::subscriber::{Subscriber, SubscriberId, SubscriberRow, SubscriptionStatus};
use crate::token::{well_formed_token, Token};
use vstd::prelude::*;

verus! {

/// How often `Store::issue` draws a token before it gives up.
pub const ISSUE_ATTEMPTS: usize = 8;

/// Why the store refused or could not do what was asked.
#[derive(Clone, Copy, Debug, PartialEq, Eq, Structural)]
pub enum RepositoryError {
    /// What was to be stored is there already.
    Conflict,
    /// Nothing is stored under the identifier.
    NotFound,
    /// The store could not do its work now; a later attempt may succeed.
    Unavailable,
}

/// Why a token led to no subscriber.
#[derive(Clone, Copy, Debug, PartialEq, Eq, Structural)]
pub enum LookupError {
    /// The token was never issued, or is not even written as one.
    NotFound,
}

/// A confirmation token as the store keeps it: bound to the subscriber it was
/// issued for.
#[derive(Debug)]
pub struct ConfirmationToken {
    token: Token,
    subscriber_id: SubscriberId,
}

impl View for ConfirmationToken {
    type V = TokenRow;

    closed spec fn view(&self) -> TokenRow {
        TokenRow { token: self.token@, subscriber_id: self.subscriber_id }
    }
}

impl ConfirmationToken {
    /// The token.
    pub fn token(&self) -> (token: &Token)
        ensures
            token@ == self@.token,
            well_formed_token(token@),
    {
        proof {
            use_type_invariant(&self.token);
        }
        &self.token
    }

    /// The subscriber that the token was issued for.
    pub fn subscriber_id(&self) -> (id: SubscriberId)
        ensures
            id == self@.subscriber_id,
    {
        self.subscriber_id
    }
}

/// The subscribers and the confirmation tokens, held in memory. The store
/// does the work of the subscriber repository (`insert_pending`,
/// `mark_confirmed`) and that of the token issuer (`issue`, `resolve`). Each
/// keeps to its own rows: a token is tied to its subscriber by the identifier
/// alone.
#[derive(Debug)]
pub struct Store {
    subscribers: Vec<Subscriber>,
    tokens: Vec<ConfirmationToken>,
}

impl View for Store {
    type V = StoreState;

    closed spec fn view(&self) -> StoreState {
        StoreState {
            subscribers: Seq::new(self.subscribers.len() as nat, |i: int| self.subscribers[i]@),
            tokens: Seq::new(self.tokens.len() as nat, |i: int| self.tokens[i]@),
        }
    }
}

/// What `StoreState::wf` asks of the subscribers, said of the rows as they are
/// kept.
spec fn sound_subscribers(rows: Seq<Subscriber>) -> bool {
    &&& forall|i: int, j: int|
        0 <= i < j < rows.len() ==> {
            &&& (#[trigger] rows[i])@.id != (#[trigger] rows[j])@.id
            &&& rows[i]@.email != rows[j]@.email
        }
    &&& forall|i: int|
        0 <= i < rows.len() ==> {
            &&& valid_name((#[trigger] rows[i])@.name)
            &&& email_syntax(rows[i]@.email)
        }
}

/// What `StoreState::wf` asks of the tokens, said of the rows as they are kept.
spec fn sound_tokens(rows: Seq<ConfirmationToken>) -> bool {
    &&& forall|i: int, j: int|
        0 <= i < j < rows.len() ==> (#[trigger] rows[i])@.token != (#[trigger] rows[j])@.token
    &&& forall|i: int| 0 <= i < rows.len() ==> well_formed_token((#[trigger] rows[i])@.token)
}

impl Store {
    /// What holds of every store that a program can have in its hands.
    #[verifier::type_invariant]
    pub closed spec fn well_formed(self) -> bool {
        sound_subscribers(self.subscribers@) && sound_tokens(self.tokens@)
    }

    /// What a well-formed store holds is well formed.
    pub proof fn lemma_view_wf(&self)
        requires
            self.well_formed(),
        ensures
            self@.wf(),
    {
        // The rows of the view are the views of the rows, one for one.
        let view = self@;
        assert forall|i: int| 0 <= i < view.subscribers.len() implies (
        #[trigger] view.subscribers[i]) == self.subscribers@[i]@ by {}
        assert forall|i: int| 0 <= i < view.tokens.len() implies (#[trigger] view.tokens[i])
            == self.tokens@[i]@ by {}
    }

    /// A store that holds nothing.
    pub fn new() -> (store: Store)
        ensures
            store@ == StoreState::empty(),
    {
        let store = Store { subscribers: Vec::new(), tokens: Vec::new() };
        assert(store@.subscribers =~= Seq::empty());
        assert(store@.tokens =~= Seq::empty());
        store
    }

    /// The position of the subscriber stored under `id`.
    fn position_of_id(&self, id: SubscriberId) -> (found: Option<usize>)
        ensures
            found is Some <==> self@.has_id(id),
            found matches Some(i) ==> id_at(self@.subscribers, i as int, id),
    {
        let mut i: usize = 0;
        while i < self.subscribers.len()
            invariant
                i <= self.subscribers.len(),
                forall|k: int| 0 <= k < i ==> !id_at(self@.subscribers, k, id),
            decreases self.subscribers.len() - i,
        {
            if self.subscribers[i].id() == id {
                assert(id_at(self@.subscribers, i as int, id));
                return Some(i);
            }
            i += 1;
        }
        None
    }

    /// The position of the subscriber stored with the address `email`.
    fn position_of_email(&self, email: &SubscriberEmail) -> (found: Option<usize>)
        ensures
            found is Some <==> self@.has_email(email@),
            found matches Some(i) ==> email_at(self@.subscribers, i as int, email@),
    {
        let mut i: usize = 0;
        while i < self.subscribers.len()
            invariant
                i <= self.subscribers.len(),
                forall|k: int| 0 <= k < i ==> !email_at(self@.subscribers, k, email@),
            decreases self.subscribers.len() - i,
        {
            if *self.subscribers[i].email() == *email {
                assert(email_at(self@.subscribers, i as int, email@));
                return Some(i);
            }
            i += 1;
        }
        None
    }

    /// The position of the token that reads as `token` does.
    fn position_of_token(&self, token: &Token) -> (found: Option<usize>)
        ensures
            found is Some <==> self@.has_token(token@),
            found matches Some(i) ==> token_at(self@.tokens, i as int, token@),
    {
        let mut i: usize = 0;
        while i < self.tokens.len()
            invariant
                i <= self.tokens.len(),
                forall|k: int| 0 <= k < i ==> !token_at(self@.tokens, k, token@),
            decreases self.tokens.len() - i,
        {
            if *self.tokens[i].token() == *token {
                assert(token_at(self@.tokens, i as int, token@));
                return Some(i);
            }
            i += 1;
        }
        None
    }

    /// Adds a subscriber who awaits confirmation. Refused with `Conflict`, and
    /// nothing changes, where the identifier or the email address is taken.
    pub fn insert_pending(
        &mut self,
        id: SubscriberId,
        name: SubscriberName,
        email: SubscriberEmail,
        subscribed_at: i64,
    ) -> (r: Result<(), RepositoryError>)
        ensures
            r == if old(self)@.can_insert(id, email@) {
                Ok::<(), RepositoryError>(())
            } else {
                Err(RepositoryError::Conflict)
            },
            final(self)@ == old(self)@.after_insert(
                SubscriberRow::pending(id, name@, email@, subscribed_at),
            ),
    {
        proof {
            use_type_invariant(&*self);
            use_type_invariant(&name);
            use_type_invariant(&email);
        }
        if self.position_of_id(id).is_some() || self.position_of_email(&email).is_some() {
            return Err(RepositoryError::Conflict);
        }
        let ghost before = self@;
        // The rows are taken out, changed and put back. While they are out
        // the store holds none, which is well formed too.
        let mut rows = Vec::new();
        core::mem::swap(&mut rows, &mut self.subscribers);
        proof {
            assert forall|k: int| 0 <= k < rows.len() implies {
                &&& (#[trigger] rows@[k])@.id != id
                &&& rows@[k]@.email != email@
            } by {
                assert(!id_at(before.subscribers, k, id));
                assert(!email_at(before.subscribers, k, email@));
            }
        }
        rows.push(Subscriber::pending(id, name, email, subscribed_at));
        self.subscribers = rows;
        proof {
            let row = SubscriberRow::pending(id, name@, email@, subscribed_at);
            assert(self@.subscribers =~= before.subscribers.push(row));
        }
        Ok(())
    }

    /// Confirms the subscriber under `id`. One who is confirmed already stays
    /// so, and nothing is written. Refused with `NotFound` where no
    /// subscriber is stored under `id`.
    pub fn mark_confirmed(&mut self, id: SubscriberId) -> (r: Result<(), RepositoryError>)
        ensures
            r == if old(self)@.has_id(id) {
                Ok::<(), RepositoryError>(())
            } else {
                Err(RepositoryError::NotFound)
            },
            final(self)@ == old(self)@.after_confirm(id),
    {
        proof {
            use_type_invariant(&*self);
            self.lemma_view_wf();
        }
        let ghost before = self@;
        match self.position_of_id(id) {
            None => {
                proof {
                    assert forall|k: int| 0 <= k < before.subscribers.len() implies (
                    #[trigger] before.subscribers[k]).id != id by {
                        assert(!id_at(before.subscribers, k, id));
                    }
                    assert(before.after_confirm(id).subscribers =~= before.subscribers);
                }
                Err(RepositoryError::NotFound)
            },
            Some(i) => {
                if self.subscribers[i].status() == SubscriptionStatus::PendingConfirmation {
                    let mut rows = Vec::new();
                    core::mem::swap(&mut rows, &mut self.subscribers);
                    rows[i].confirm();
                    self.subscribers = rows;
                }
                assert(self@.subscribers =~= before.after_confirm(id).subscribers);
                Ok(())
            },
        }
    }

    /// Keeps `token` for the subscriber `subscriber_id`. Refused with
    /// `Conflict`, and nothing changes, where the token was issued before.
    pub fn store_token(
        &mut self,
        token: Token,
        subscriber_id: SubscriberId,
    ) -> (r: Result<(), RepositoryError>)
        ensures
            r == if old(self)@.has_token(token@) {
                Err(RepositoryError::Conflict)
            } else {
                Ok::<(), RepositoryError>(())
            },
            final(self)@ == old(self)@.after_token(token@, subscriber_id),
    {
        proof {
            use_type_invariant(&*self);
            use_type_invariant(&token);
        }
        if self.position_of_token(&token).is_some() {
            return Err(RepositoryError::Conflict);
        }
        let ghost before = self@;
        let mut rows = Vec::new();
        core::mem::swap(&mut rows, &mut self.tokens);
        proof {
            assert forall|k: int| 0 <= k < rows.len() implies (#[trigger] rows@[k])@.token
                != token@ by {
                assert(!token_at(before.tokens, k, token@));
            }
        }
        rows.push(ConfirmationToken { token, subscriber_id });
        self.tokens = rows;
        proof {
            assert(self@.tokens =~= before.tokens.push(TokenRow { token: token@, subscriber_id }));
        }
        Ok(())
    }

    /// Issues a new token for `subscriber_id`: draws one at random and keeps
    /// it. A token that was issued before is not an error: another is drawn,
    /// up to `ISSUE_ATTEMPTS` times in all. Only where every one of them was
    /// taken does the call fail, with `Unavailable`, and nothing changes. In a
    /// store without tokens the first one drawn is kept.
    pub fn issue(&mut self, subscriber_id: SubscriberId) -> (r: Result<Token, RepositoryError>)
        ensures
            match r {
                Ok(token) => {
                    &&& well_formed_token(token@)
                    &&& !old(self)@.has_token(token@)
                    &&& final(self)@ == old(self)@.after_token(token@, subscriber_id)
                },
                Err(e) => e == RepositoryError::Unavailable && final(self)@ == old(self)@,
            },
            old(self)@.tokens.len() == 0 ==> r is Ok,
    {
        let mut attempt: usize = 0;
        while attempt < ISSUE_ATTEMPTS
            invariant
                attempt <= ISSUE_ATTEMPTS,
                self@ == old(self)@,
                attempt > 0 ==> self@.tokens.len() > 0,
            decreases ISSUE_ATTEMPTS - attempt,
        {
            let token = Token::generate();
            match self.store_token(token.clone(), subscriber_id) {
                Ok(()) => {
                    return Ok(token);
                },
                Err(_) => {
                    assert(self@.has_token(token@));
                },
            }
            attempt += 1;
        }
        Err(RepositoryError::Unavailable)
    }

    /// The subscriber that the token `raw` was issued for. A text that was
    /// never issued and one that is not even written as a token are refused
    /// alike, with `NotFound`.
    pub fn resolve(&self, raw: &str) -> (r: Result<SubscriberId, LookupError>)
        ensures
            r == match self@.owner_of(raw@) {
                Some(id) => Ok::<SubscriberId, LookupError>(id),
                None => Err(LookupError::NotFound),
            },
    {
        proof {
            use_type_invariant(self);
            self.lemma_view_wf();
        }
        let token = match Token::parse(raw) {
            Some(token) => token,
            None => {
                proof {
                    laws::lemma_malformed_token_is_unknown(self@, raw@);
                }
                return Err(LookupError::NotFound);
            },
        };
        match self.position_of_token(&token) {
            Some(i) => {
                proof {
                    laws::lemma_token_is_found(self@, i as int);
                }
                Ok(self.tokens[i].subscriber_id())
            },
            None => Err(LookupError::NotFound),
        }
    }

    /// The number of subscribers.
    pub fn subscriber_count(&self) -> (n: usize)
        ensures
            n == self@.subscribers.len(),
    {
        self.subscribers.len()
    }

    /// The number of tokens issued.
    pub fn token_count(&self) -> (n: usize)
        ensures
            n == self@.tokens.len(),
    {
        self.tokens.len()
    }

    /// The subscriber stored under `id`, if there is one.
    pub fn find(&self, id: SubscriberId) -> (found: Option<&Subscriber>)
        ensures
            found is Some <==> self@.has_id(id),
            found matches Some(subscriber) ==> Some(subscriber@) == self@.row_of(id),
    {
        proof {
            use_type_invariant(self);
            self.lemma_view_wf();
        }
        match self.position_of_id(id) {
            Some(i) => {
                proof {
                    laws::lemma_row_is_found(self@, i as int);
                }
                Some(&self.subscribers[i])
            },
            None => None,
        }
    }

    /// The subscriber stored with the address `email`, if there is one.
    pub fn find_by_email(&self, email: &SubscriberEmail) -> (found: Option<&Subscriber>)
        ensures
            found is Some <==> self@.has_email(email@),
            found matches Some(subscriber) ==> Some(subscriber@) == self@.row_with_email(email@),
    {
        proof {
            use_type_invariant(self);
            self.lemma_view_wf();
        }
        match self.position_of_email(email) {
            Some(i) => {
                proof {
                    laws::lemma_row_is_found(self@, i as int);
                }
                Some(&self.subscribers[i])
            },
            None => None,
        }
    }
}

} // verus!
