pub mod account;
pub mod burn;
pub mod initialize;
pub mod mint;
pub mod transfer;
