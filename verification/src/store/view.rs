use crate::domain::subscriber_email::email_syntax;
use crate::domain::subscriber_name::valid_name;
use crate::subscriber::{SubscriberId, SubscriberRow, SubscriptionStatus};
use crate::token::well_formed_token;
use vstd::prelude::*;

verus! {

/// A confirmation token and its owner, as a row of plain values.
pub struct TokenRow {
    pub token: Seq<char>,
    pub subscriber_id: SubscriberId,
}

/// What a store holds: the subscribers and the tokens, each in the order in
/// which they came.
pub struct StoreState {
    pub subscribers: Seq<SubscriberRow>,
    pub tokens: Seq<TokenRow>,
}

/// Whether the subscriber at position `i` of `rows` is stored under `id`.
pub open spec fn id_at(rows: Seq<SubscriberRow>, i: int, id: SubscriberId) -> bool {
    0 <= i < rows.len() && rows[i].id == id
}

/// Whether the subscriber at position `i` of `rows` has the address `email`.
pub open spec fn email_at(rows: Seq<SubscriberRow>, i: int, email: Seq<char>) -> bool {
    0 <= i < rows.len() && rows[i].email == email
}

/// Whether the token at position `i` of `rows` reads `token`.
pub open spec fn token_at(rows: Seq<TokenRow>, i: int, token: Seq<char>) -> bool {
    0 <= i < rows.len() && rows[i].token == token
}

impl StoreState {
    /// The store that holds nothing.
    pub open spec fn empty() -> StoreState {
        StoreState { subscribers: Seq::empty(), tokens: Seq::empty() }
    }

    /// Whether a subscriber is stored under `id`.
    pub open spec fn has_id(self, id: SubscriberId) -> bool {
        exists|i: int| id_at(self.subscribers, i, id)
    }

    /// Whether a subscriber is stored with the address `email`.
    pub open spec fn has_email(self, email: Seq<char>) -> bool {
        exists|i: int| email_at(self.subscribers, i, email)
    }

    /// Whether `token` was issued.
    pub open spec fn has_token(self, token: Seq<char>) -> bool {
        exists|i: int| token_at(self.tokens, i, token)
    }

    /// The subscriber stored under `id`.
    pub open spec fn row_of(self, id: SubscriberId) -> Option<SubscriberRow> {
        if self.has_id(id) {
            Some(self.subscribers[choose|i: int| id_at(self.subscribers, i, id)])
        } else {
            None
        }
    }

    /// The subscriber stored with the address `email`.
    pub open spec fn row_with_email(self, email: Seq<char>) -> Option<SubscriberRow> {
        if self.has_email(email) {
            Some(self.subscribers[choose|i: int| email_at(self.subscribers, i, email)])
        } else {
            None
        }
    }

    /// The status of the subscriber stored under `id`.
    pub open spec fn status_of(self, id: SubscriberId) -> Option<SubscriptionStatus> {
        match self.row_of(id) {
            Some(row) => Some(row.status),
            None => None,
        }
    }

    /// The subscriber that `token` was issued for.
    pub open spec fn owner_of(self, token: Seq<char>) -> Option<SubscriberId> {
        if self.has_token(token) {
            Some(self.tokens[choose|i: int| token_at(self.tokens, i, token)].subscriber_id)
        } else {
            None
        }
    }

    /// Whether exactly one subscriber is stored with the address `email`.
    pub open spec fn exactly_one_with_email(self, email: Seq<char>) -> bool {
        exists|i: int|
            {
                &&& email_at(self.subscribers, i, email)
                &&& forall|j: int| email_at(self.subscribers, j, email) ==> j == i
            }
    }

    /// What holds of every store: no two subscribers share an identifier or an
    /// address, no token was issued twice, and every name, address and token
    /// is a valid one.
    pub open spec fn wf(self) -> bool {
        &&& forall|i: int, j: int|
            0 <= i < j < self.subscribers.len() ==> {
                &&& (#[trigger] self.subscribers[i]).id != (#[trigger] self.subscribers[j]).id
                &&& self.subscribers[i].email != self.subscribers[j].email
            }
        &&& forall|i: int, j: int|
            0 <= i < j < self.tokens.len() ==> (#[trigger] self.tokens[i]).token != (
            #[trigger] self.tokens[j]).token
        &&& forall|i: int|
            0 <= i < self.subscribers.len() ==> {
                &&& valid_name((#[trigger] self.subscribers[i]).name)
                &&& email_syntax(self.subscribers[i].email)
            }
        &&& forall|i: int|
            0 <= i < self.tokens.len() ==> well_formed_token((#[trigger] self.tokens[i]).token)
    }

    /// A subscriber can be added when neither its identifier nor its address
    /// is taken.
    pub open spec fn can_insert(self, id: SubscriberId, email: Seq<char>) -> bool {
        !self.has_id(id) && !self.has_email(email)
    }

    /// The store after an attempt to add `row`: with `row` at the end where it
    /// can be added, unchanged where it cannot.
    pub open spec fn after_insert(self, row: SubscriberRow) -> StoreState {
        if self.can_insert(row.id, row.email) {
            StoreState { subscribers: self.subscribers.push(row), tokens: self.tokens }
        } else {
            self
        }
    }

    /// The store after the subscriber under `id` was confirmed: that row is
    /// confirmed, every other is as it was. Where `id` is unknown nothing
    /// changes.
    pub open spec fn after_confirm(self, id: SubscriberId) -> StoreState {
        StoreState {
            subscribers: Seq::new(
                self.subscribers.len(),
                |i: int|
                    if self.subscribers[i].id == id {
                        self.subscribers[i].confirmed()
                    } else {
                        self.subscribers[i]
                    },
            ),
            tokens: self.tokens,
        }
    }

    /// The store after an attempt to keep `token` for the subscriber `id`:
    /// with the pair at the end where the token is new, unchanged where it
    /// was issued before.
    pub open spec fn after_token(self, token: Seq<char>, id: SubscriberId) -> StoreState {
        if self.has_token(token) {
            self
        } else {
            StoreState {
                subscribers: self.subscribers,
                tokens: self.tokens.push(TokenRow { token, subscriber_id: id }),
            }
        }
    }
}

} // verus!
