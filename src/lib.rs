//! Token lifecycle for a client that presents itself as a mobile application
//! to an OAuth identity service: a spoofed device profile, the token exchange
//! (request building and response handling) and the renewal schedule.
pub mod calls;
pub mod device;
pub mod headers;
pub mod oauth;
pub mod renewal;
