//! Commit–reveal wagers settled against oracle randomness, and the small
//! pieces of on-chain state bookkeeping that go with oracle feeds.
pub mod keys;
pub mod randomness;
pub mod commitment;
pub mod sb_randomness;
pub mod pancake_stacker;
pub mod advanced_oracle;
pub mod cranker;
pub mod feed_values;
pub mod oracle_accounts;
pub mod prediction_market;
