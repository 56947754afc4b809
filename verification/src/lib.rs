//! A small orchestration kernel: a principal villain coordinates pluggable
//! collaborators — an assistant, weapons, henchmen, ciphers — through staged,
//! contract-checked operations, parses two-token identity strings, and scans
//! line-oriented listings for weak locations.

mod cipher;
mod gadget;
mod henchman;
mod scanner;
mod sidekick;
mod supervillain;
mod tokens;

pub use cipher::Cipher;
pub use gadget::Gadget;
pub use henchman::Command;
pub use henchman::Henchman;
pub use scanner::ends_with_weak;
pub use scanner::has_weak_line;
pub use scanner::line_is_weak;
pub use scanner::lines_of;
pub use scanner::scan_listing;
pub use scanner::split_lines;
pub use scanner::weak_location_report;
pub use sidekick::Assistant;
pub use sidekick::Sidekick;
pub use supervillain::lemma_tell_plans_never_relays_secret;
pub use supervillain::EvilError;
pub use supervillain::MegaWeapon;
pub use supervillain::SuperVillain;
pub use tokens::is_space_char;
pub use tokens::lemma_two_token_round_trip;
pub use tokens::split_tokens;
pub use tokens::token_len;
pub use tokens::tokens_of;
