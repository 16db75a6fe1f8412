use crate::domain::subscriber_email::{email_syntax, SubscriberEmail};
use crate::domain::subscriber_name::{valid_name, SubscriberName};
use crate::random::{is_version_4, random_uuid};
use vstd::prelude::*;

verus! {

/// What tells one subscriber from another: the 128 bits of a UUID.
#[derive(Clone, Copy, Debug, PartialEq, Eq, Structural, Hash)]
pub struct SubscriberId(pub u128);

impl SubscriberId {
    /// A new identifier: a random version-4 UUID.
    pub fn generate() -> (id: SubscriberId)
        ensures
            is_version_4(id.0),
    {
        SubscriberId(random_uuid())
    }
}

/// How far a subscriber has come. The only step is from
/// `PendingConfirmation` to `Confirmed`.
#[derive(Clone, Copy, Debug, PartialEq, Eq, Structural, Hash)]
pub enum SubscriptionStatus {
    PendingConfirmation,
    Confirmed,
}

impl SubscriptionStatus {
    /// The status as the store spells it.
    pub fn as_str(&self) -> (text: &'static str)
        ensures
            text@ == match *self {
                SubscriptionStatus::PendingConfirmation => "pending_confirmation"@,
                SubscriptionStatus::Confirmed => "confirmed"@,
            },
    {
        match self {
            SubscriptionStatus::PendingConfirmation => "pending_confirmation",
            SubscriptionStatus::Confirmed => "confirmed",
        }
    }
}

/// A subscriber as a row of plain values.
pub struct SubscriberRow {
    pub id: SubscriberId,
    pub email: Seq<char>,
    pub name: Seq<char>,
    pub subscribed_at: i64,
    pub status: SubscriptionStatus,
}

impl SubscriberRow {
    /// The row of one who has just signed up.
    pub open spec fn pending(
        id: SubscriberId,
        name: Seq<char>,
        email: Seq<char>,
        subscribed_at: i64,
    ) -> SubscriberRow {
        SubscriberRow {
            id,
            email,
            name,
            subscribed_at,
            status: SubscriptionStatus::PendingConfirmation,
        }
    }

    /// The same row after confirmation.
    pub open spec fn confirmed(self) -> SubscriberRow {
        SubscriberRow { status: SubscriptionStatus::Confirmed, ..self }
    }
}

/// A subscriber as the store keeps it.
#[derive(Debug)]
pub struct Subscriber {
    id: SubscriberId,
    email: SubscriberEmail,
    name: SubscriberName,
    subscribed_at: i64,
    status: SubscriptionStatus,
}

impl View for Subscriber {
    type V = SubscriberRow;

    closed spec fn view(&self) -> SubscriberRow {
        SubscriberRow {
            id: self.id,
            email: self.email@,
            name: self.name@,
            subscribed_at: self.subscribed_at,
            status: self.status,
        }
    }
}

impl Clone for Subscriber {
    fn clone(&self) -> (copy: Self)
        ensures
            copy@ == self@,
    {
        Subscriber {
            id: self.id,
            email: self.email.clone(),
            name: self.name.clone(),
            subscribed_at: self.subscribed_at,
            status: self.status,
        }
    }
}

impl Subscriber {
    /// One who has just signed up, at the moment `subscribed_at` (in
    /// milliseconds since the Unix epoch): not confirmed yet.
    pub(crate) fn pending(
        id: SubscriberId,
        name: SubscriberName,
        email: SubscriberEmail,
        subscribed_at: i64,
    ) -> (subscriber: Subscriber)
        ensures
            subscriber@ == SubscriberRow::pending(id, name@, email@, subscribed_at),
    {
        Subscriber {
            id,
            email,
            name,
            subscribed_at,
            status: SubscriptionStatus::PendingConfirmation,
        }
    }

    /// Takes the one step there is: to `Confirmed`.
    pub(crate) fn confirm(&mut self)
        ensures
            final(self)@ == old(self)@.confirmed(),
    {
        self.status = SubscriptionStatus::Confirmed;
    }

    /// The subscriber's identifier.
    pub fn id(&self) -> (id: SubscriberId)
        ensures
            id == self@.id,
    {
        self.id
    }

    /// The subscriber's email address.
    pub fn email(&self) -> (email: &SubscriberEmail)
        ensures
            email@ == self@.email,
            email_syntax(email@),
    {
        proof {
            use_type_invariant(&self.email);
        }
        &self.email
    }

    /// The subscriber's name.
    pub fn name(&self) -> (name: &SubscriberName)
        ensures
            name@ == self@.name,
            valid_name(name@),
    {
        proof {
            use_type_invariant(&self.name);
        }
        &self.name
    }

    /// The moment of signing up, in milliseconds since the Unix epoch.
    pub fn subscribed_at(&self) -> (millis: i64)
        ensures
            millis == self@.subscribed_at,
    {
        self.subscribed_at
    }

    /// Whether the subscriber is confirmed or still pending.
    pub fn status(&self) -> (status: SubscriptionStatus)
        ensures
            status == self@.status,
    {
        self.status
    }
}

} // verus!
