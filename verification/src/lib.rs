//! Verified core of the zz-drop configuration TUI: text editing,
//! wizard state, the screen state machine, what each screen says, key
//! hints, themes and the QR layout logic. Terminal I/O, network and
//! disk access live in the driver under `app/`.

pub mod text;
pub mod input;
pub mod profile;
pub mod wizard;
pub mod widgets;
pub mod screens;
pub mod theme;
pub mod qr;
pub mod layout;
pub mod save;
pub mod remote;
pub mod outcomes;
pub mod content;
pub mod setup_panels;
pub mod form;
pub mod keys;
mod clock;
pub mod alias_gen;
pub mod app;
pub mod app_keys;
pub mod keys_wizard;
pub mod keys_oauth;
pub mod keys_account;
pub mod keys_manage;
pub mod app_results;
pub mod oauth_results;
pub mod unlock_results;
pub mod laws;
