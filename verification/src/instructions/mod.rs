pub mod burn;
pub mod initialize;
pub mod mint;
pub mod pause;
pub mod transfer_authority;
pub mod unpause;
pub mod update_validators;
