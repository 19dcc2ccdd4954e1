//! Wire messages exchanged with other services.

pub mod golem;
