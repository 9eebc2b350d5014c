//! Evening volume scheduling for a remote playback device, together with the
//! authorization lifecycle that obtains the credential the device API needs.
//!
//! The crate decides; it performs nothing. Whatever touches the network, the
//! clock or the process environment is left to the caller, which reports what
//! it observed as events and carries out the actions it is handed back.
//!
//! - [`schedule`]: which volume, if any, a weekday and hour call for.
//! - [`civil`]: the weekday and hour of an instant on the Copenhagen clock.
//! - [`credential`]: the credential, its slot and the handle that builds the
//!   slot once.
//! - [`token`]: the serialized form in which a credential comes in and goes
//!   out.
//! - [`listener`]: the redirect target and the one-shot callback listener.
//! - [`auth`]: the authorization flow.
//! - [`run`]: the controller that sequences one run.

pub mod auth;
pub mod civil;
pub mod credential;
pub mod listener;
pub mod run;
pub mod schedule;
pub mod token;
