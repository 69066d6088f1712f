//! A bounded pool of headless browser sessions, the decisions that govern it,
//! and the frame translation used to relay DevTools traffic to its clients.

pub mod broadcast;
pub mod gateway;
pub mod launch;
pub mod monitor;
pub mod pool;
pub mod relay;
pub mod session_id;
pub mod text;
pub mod warmup;
