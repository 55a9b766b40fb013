//! An MQTT client whose traffic and status changes travel over a broadcast
//! channel of events.

pub mod bus;
pub mod cache;
pub mod client;
pub mod config;
pub mod counters;
pub mod dispatch;
pub mod errors;
pub mod events;
pub mod lifecycle;
pub mod metrics;
pub mod subscription;

pub use self::client::Client;
pub use self::config::{ClientConfig, ClientConfigBuilder};
pub use self::errors::Error;
pub use self::events::{Event, Message, StatusEvent};
pub use self::subscription::{Subscription, SubscriptionBuilder};
