pub mod bridge_config;
pub mod bridge_state;
pub mod burn_record;
pub mod mint_record;
pub mod validator_registry;
