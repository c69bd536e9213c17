//! Verified core of a client for the NOWPayments API: currencies, payment
//! states, request paths and bodies, and the conversion of API replies.

pub mod text;
pub mod status;
pub mod currency;
pub mod time;
pub mod payment;
pub mod request;
pub mod session;
pub mod response;

pub use currency::Currency;
pub use payment::Payment;
pub use status::Status;
