//! Review of role-play character sheets.
//!
//! Members hand in sheets; the staff comment on them and decide on them. This
//! library holds the rules of that workflow and proves them:
//!
//! - [`permissions`]: the roles, and how the groups of a member resolve to one;
//! - [`rate_limit`]: how often a caller may ask;
//! - [`fiche_rp`], [`labels`]: the sheets, their logs and histories, and their names;
//! - [`review`]: who may post what on a sheet, and what a post does to it;
//! - [`user`], [`lookup`], [`accounts`]: the accounts, the store, and the life of an account;
//! - [`front`], [`visibility`]: the requests of a member on the store, and what a viewer sees;
//! - [`space`], [`panel`]: what the screens decide;
//! - [`webhook`], [`config`], [`text`]: the webhook relay, the set-up, and helpers on text.
//!
//! Time comes in as a number of seconds and the store as a list of accounts: nothing here
//! reads a file or a socket, and only the identifier of a new sheet is drawn afresh.

pub mod accounts;
pub mod config;
pub mod fiche_rp;
pub mod front;
pub mod labels;
pub mod lookup;
pub mod panel;
pub mod permissions;
pub mod rate_limit;
pub mod review;
pub mod space;
pub mod text;
pub mod user;
pub mod visibility;
pub mod webhook;
