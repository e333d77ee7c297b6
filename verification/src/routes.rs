pub mod subscriptions;

pub use subscriptions::{FormData, SubscribeStep, subscribe};
