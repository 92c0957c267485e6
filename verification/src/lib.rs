pub mod domain;
pub mod email;
pub mod errors;
pub mod registration;
pub mod store;
pub mod token;
