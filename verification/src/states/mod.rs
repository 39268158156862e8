pub mod accounts;
pub mod binary32;
pub mod constants;
pub mod errors;
pub mod events;
