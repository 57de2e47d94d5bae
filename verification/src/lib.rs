//! The logic of a terminal dashboard for the git repositories of one directory: what is
//! found out about each, how they are listed, shown and set up for signing, and what keys
//! and mouse do.
//!
//! Nothing in here reads or writes anything but the clock. What is read elsewhere comes in
//! as plain values ([`project::RepoFacts`], [`event::Event`]), and what is to be done goes
//! out as plain values ([`event::Action`], [`gpg::Setting`], [`github::GitHubRequest`],
//! [`screen::Screen`], [`screen::Panel`]).

pub mod app;
pub mod brand;
pub mod changes;
pub mod configure;
pub mod create;
pub mod details;
pub mod event;
pub mod github;
pub mod gpg;
pub mod laws;
pub mod layout;
pub mod list;
pub mod project;
pub mod responses;
pub mod scan;
pub mod screen;
pub mod shown;
pub mod sort;
pub mod text;
pub mod time_ago;
pub mod ui;
