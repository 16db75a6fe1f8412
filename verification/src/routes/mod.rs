pub mod subscriptions;
pub mod subscriptions_confirm;

pub use subscriptions::{is_valid_name, subscribe_status, SubscriptionFormData};
pub use subscriptions_confirm::confirm_status;
