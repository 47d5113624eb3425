//! Ticketing and user-file backup helpers for the ShamRock.it desktop suite.
//!
//! The library holds the parts of the program that compute: text handling,
//! path planning for a backup, ticket and e-mail formatting, the decisions
//! taken on ticket statuses, and the encryption of the credentials asset.
pub mod text;
pub mod codec;
pub mod cipher;
pub mod crypto;
pub mod structures;
pub mod mailer;
pub mod ninja;
pub mod backup;
pub mod db;
pub mod info;
