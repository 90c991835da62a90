//! The core of a remote desktop client: sessions, their clipboard, and connection profiles.
//!
//! Everything here decides and computes; the network, the keyring, the user and the display are
//! outside. A session is set up by [`setup::SessionSetup`] and run by [`active::ActiveSession`],
//! which are told what happened and answer with what to do next. The frontend drives it through
//! [`controller::SessionController`] and hears from it through [`events::SessionEvent`].
//! [`stage`] talks to the protocol stage, [`clipboard`] and [`text`] hold the clipboard's text
//! format, and [`profiles`] the list of profiles.
pub mod active;
pub mod clipboard;
pub mod controller;
pub mod events;
pub mod profiles;
pub mod setup;
pub mod stage;
pub mod text;
