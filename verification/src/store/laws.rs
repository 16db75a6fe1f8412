use crate::domain::subscriber_email::email_syntax;
use crate::domain::subscriber_name::valid_name;
use crate::store::view::{email_at, id_at, token_at, StoreState};
use crate::subscriber::{SubscriberId, SubscriberRow, SubscriptionStatus};
use crate::token::well_formed_token;
use vstd::prelude::*;

verus! {

/// In a well-formed store the row at a position is the one found under its
/// identifier, and under its address.
pub proof fn lemma_row_is_found(store: StoreState, i: int)
    requires
        store.wf(),
        0 <= i < store.subscribers.len(),
    ensures
        store.row_of(store.subscribers[i].id) == Some(store.subscribers[i]),
        store.row_with_email(store.subscribers[i].email) == Some(store.subscribers[i]),
{
    let row = store.subscribers[i];
    assert(id_at(store.subscribers, i, row.id));
    assert(email_at(store.subscribers, i, row.email));
    // No other position holds the identifier or the address, so the chosen
    // positions are this one.
    assert((choose|k: int| id_at(store.subscribers, k, row.id)) == i);
    assert((choose|k: int| email_at(store.subscribers, k, row.email)) == i);
}

/// In a well-formed store the token at a position leads to the subscriber
/// kept beside it.
pub proof fn lemma_token_is_found(store: StoreState, i: int)
    requires
        store.wf(),
        0 <= i < store.tokens.len(),
    ensures
        store.owner_of(store.tokens[i].token) == Some(store.tokens[i].subscriber_id),
{
    let row = store.tokens[i];
    assert(token_at(store.tokens, i, row.token));
    // No other position holds the token, so the chosen position is this one.
    assert((choose|k: int| token_at(store.tokens, k, row.token)) == i);
}

/// In a well-formed store a subscriber's address is found at no other
/// position: exactly one subscriber has it.
pub proof fn lemma_email_is_unique(store: StoreState, i: int)
    requires
        store.wf(),
        0 <= i < store.subscribers.len(),
    ensures
        store.exactly_one_with_email(store.subscribers[i].email),
{
    let email = store.subscribers[i].email;
    assert(email_at(store.subscribers, i, email));
    // Two positions with one address would break the store's rule.
    assert forall|j: int| email_at(store.subscribers, j, email) implies j == i by {}
}

/// Adding a subscriber with a valid name and address keeps a store well
/// formed, whether the subscriber is taken or refused.
pub proof fn lemma_insert_keeps_wf(store: StoreState, row: SubscriberRow)
    requires
        store.wf(),
        valid_name(row.name),
        email_syntax(row.email),
    ensures
        store.after_insert(row).wf(),
{
    let after = store.after_insert(row);
    if store.can_insert(row.id, row.email) {
        assert forall|i: int, j: int| 0 <= i < j < after.subscribers.len() implies {
            &&& (#[trigger] after.subscribers[i]).id != (#[trigger] after.subscribers[j]).id
            &&& after.subscribers[i].email != after.subscribers[j].email
        } by {
            // The new row stands last; no row before it has its identifier
            // or its address.
            if j == store.subscribers.len() {
                assert(!id_at(store.subscribers, i, row.id));
                assert(!email_at(store.subscribers, i, row.email));
            }
        }
    }
}

/// A subscriber that was just added is found under its identifier and under
/// its address, and every other identifier leads where it led.
pub proof fn lemma_inserted_row_is_found(store: StoreState, row: SubscriberRow, other: SubscriberId)
    requires
        store.wf(),
        valid_name(row.name),
        email_syntax(row.email),
        store.can_insert(row.id, row.email),
    ensures
        store.after_insert(row).row_of(row.id) == Some(row),
        store.after_insert(row).row_with_email(row.email) == Some(row),
        other != row.id ==> store.after_insert(row).row_of(other) == store.row_of(other),
{
    let after = store.after_insert(row);
    let last = store.subscribers.len() as int;
    lemma_insert_keeps_wf(store, row);
    lemma_row_is_found(after, last);
    if other != row.id {
        if store.has_id(other) {
            let i = choose|i: int| id_at(store.subscribers, i, other);
            lemma_row_is_found(store, i);
            lemma_row_is_found(after, i);
        } else if after.has_id(other) {
            let i = choose|i: int| id_at(after.subscribers, i, other);
            assert(id_at(store.subscribers, i, other));
        }
    }
}

/// Confirming keeps a store well formed.
pub proof fn lemma_confirm_keeps_wf(store: StoreState, id: SubscriberId)
    requires
        store.wf(),
    ensures
        store.after_confirm(id).wf(),
{
    // Confirming changes the status of a row and nothing else of it.
    let after = store.after_confirm(id);
    assert forall|i: int| 0 <= i < after.subscribers.len() implies {
        &&& (#[trigger] after.subscribers[i]).id == store.subscribers[i].id
        &&& after.subscribers[i].email == store.subscribers[i].email
        &&& after.subscribers[i].name == store.subscribers[i].name
    } by {}
}

/// Keeping a well-formed token keeps a store well formed, whether the token
/// is new or was issued before.
pub proof fn lemma_token_keeps_wf(store: StoreState, token: Seq<char>, id: SubscriberId)
    requires
        store.wf(),
        well_formed_token(token),
    ensures
        store.after_token(token, id).wf(),
{
    let after = store.after_token(token, id);
    if !store.has_token(token) {
        assert forall|i: int, j: int| 0 <= i < j < after.tokens.len() implies (
        #[trigger] after.tokens[i]).token != (#[trigger] after.tokens[j]).token by {
            // The new token stands last; no token before it reads the same.
            if j == store.tokens.len() {
                assert(!token_at(store.tokens, i, token));
            }
        }
    }
}

/// A text that is not written as a token leads to no subscriber.
pub proof fn lemma_malformed_token_is_unknown(store: StoreState, token: Seq<char>)
    requires
        store.wf(),
        !well_formed_token(token),
    ensures
        !store.has_token(token),
        store.owner_of(token) is None,
{
    // Every token in the store is well formed, so none reads as `token` does.
    assert forall|i: int| !token_at(store.tokens, i, token) by {
        if 0 <= i < store.tokens.len() {
            assert(well_formed_token(store.tokens[i].token));
        }
    }
}

/// A token that was just kept leads to the subscriber it was kept for, and
/// every token issued before leads where it led.
pub proof fn lemma_kept_token_resolves(
    store: StoreState,
    token: Seq<char>,
    id: SubscriberId,
    other: Seq<char>,
)
    requires
        store.wf(),
        well_formed_token(token),
        !store.has_token(token),
    ensures
        store.after_token(token, id).owner_of(token) == Some(id),
        other != token ==> store.after_token(token, id).owner_of(other) == store.owner_of(other),
{
    let after = store.after_token(token, id);
    let last = store.tokens.len() as int;
    lemma_token_keeps_wf(store, token, id);
    lemma_token_is_found(after, last);
    if other != token {
        if store.has_token(other) {
            let i = choose|i: int| token_at(store.tokens, i, other);
            lemma_token_is_found(store, i);
            lemma_token_is_found(after, i);
        } else if after.has_token(other) {
            let i = choose|i: int| token_at(after.tokens, i, other);
            assert(token_at(store.tokens, i, other));
        }
    }
}

/// After a confirmation the subscriber under `id`, if there is one, is
/// confirmed, and every other subscriber is as it was.
pub proof fn lemma_confirm_sets_status(store: StoreState, id: SubscriberId, other: SubscriberId)
    requires
        store.wf(),
    ensures
        store.after_confirm(id).has_id(other) == store.has_id(other),
        store.has_id(id) ==> store.after_confirm(id).status_of(id) == Some(
            SubscriptionStatus::Confirmed,
        ),
        other != id ==> store.after_confirm(id).row_of(other) == store.row_of(other),
{
    let after = store.after_confirm(id);
    lemma_confirm_keeps_wf(store, id);
    if store.has_id(other) {
        let i = choose|i: int| id_at(store.subscribers, i, other);
        lemma_row_is_found(store, i);
        lemma_row_is_found(after, i);
    }
    if after.has_id(other) {
        let i = choose|i: int| id_at(after.subscribers, i, other);
        assert(id_at(store.subscribers, i, other));
    }
    if store.has_id(id) {
        let i = choose|i: int| id_at(store.subscribers, i, id);
        lemma_row_is_found(after, i);
    }
}

/// Confirming a second time changes nothing.
pub proof fn lemma_confirm_is_idempotent(store: StoreState, id: SubscriberId)
    ensures
        store.after_confirm(id).after_confirm(id) == store.after_confirm(id),
{
    let once = store.after_confirm(id);
    assert(once.after_confirm(id).subscribers =~= once.subscribers);
}

/// No operation of the store takes a confirmation back: one who is confirmed
/// stays so when a subscriber is added, when any subscriber is confirmed and
/// when a token is kept.
pub proof fn lemma_confirmed_is_final(
    store: StoreState,
    id: SubscriberId,
    row: SubscriberRow,
    other: SubscriberId,
    token: Seq<char>,
)
    requires
        store.wf(),
        store.status_of(id) == Some(SubscriptionStatus::Confirmed),
        valid_name(row.name),
        email_syntax(row.email),
    ensures
        store.after_insert(row).status_of(id) == Some(SubscriptionStatus::Confirmed),
        store.after_confirm(other).status_of(id) == Some(SubscriptionStatus::Confirmed),
        store.after_token(token, other).status_of(id) == Some(SubscriptionStatus::Confirmed),
{
    let i = choose|i: int| id_at(store.subscribers, i, id);
    lemma_row_is_found(store, i);
    let inserted = store.after_insert(row);
    lemma_insert_keeps_wf(store, row);
    lemma_row_is_found(inserted, i);
    let confirmed = store.after_confirm(other);
    lemma_confirm_keeps_wf(store, other);
    lemma_row_is_found(confirmed, i);
    assert(store.after_token(token, other).subscribers == store.subscribers);
}

/// Of two subscribers with one address only the first is taken. Where the
/// first comes under a new identifier, the store afterwards holds exactly
/// one subscriber with that address, whatever the store held before and
/// whatever the second one's identifier is.
pub proof fn lemma_same_email_twice(store: StoreState, first: SubscriberRow, second: SubscriberRow)
    requires
        store.wf(),
        valid_name(first.name),
        email_syntax(first.email),
        first.email == second.email,
        !store.has_id(first.id),
    ensures
        !store.after_insert(first).can_insert(second.id, second.email),
        store.after_insert(first).after_insert(second) == store.after_insert(first),
        store.after_insert(first).after_insert(second).exactly_one_with_email(first.email),
{
    let after = store.after_insert(first);
    lemma_insert_keeps_wf(store, first);
    let i = if store.has_email(first.email) {
        choose|i: int| email_at(store.subscribers, i, first.email)
    } else {
        store.subscribers.len() as int
    };
    lemma_email_is_unique(after, i);
}

} // verus!
