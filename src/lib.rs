pub mod app_state;
pub mod board;
pub mod channel;
pub mod protocol;
pub mod session;
