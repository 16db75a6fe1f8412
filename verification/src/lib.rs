//! The core of a newsletter's sign-up: who may subscribe, what the store keeps
//! of subscribers and confirmation tokens, and what a submission and a
//! confirmation do to it.
//!
//! Names, email addresses and tokens are values that exist only in their
//! valid form. The store keeps every email address and every token once. A
//! subscriber is pending until the token that was issued at sign-up comes
//! back, and confirmed from then on.

pub mod clock;
pub mod configuration;
pub mod domain;
pub mod notifier;
pub mod random;
pub mod routes;
pub mod startup;
pub mod store;
pub mod subscriber;
pub mod token;
pub mod workflow;
