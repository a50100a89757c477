//! Calendar feeds for chat communities.
//!
//! Every community owns a list of scheduled events. This crate turns one
//! such list into calendar entries, assembles them into a calendar
//! document, writes the document as text and decides what has to happen
//! to the community's published feed file. All fetching and all file
//! access is left to the caller, who hands in plain values, the time of
//! writing among them, and carries out the actions that come back.
//!
//! The way through the crate, from a notification to a file:
//!
//! - [`dispatch`] resolves a notification to actions;
//! - [`registry`] lets one publication run at a time for each community;
//! - [`description`] and [`location`] say what has to be looked up for an
//!   event, and compose what came back;
//! - [`calendar`] builds entries and assembles the document;
//! - [`lines`] says which lines the `icalendar` crate can write;
//! - [`ical`] hands the document to the `icalendar` crate and writes it;
//! - [`publish`] decides what happens to the feed file;
//! - [`links`], [`model`] and [`text`] hold what the others share.

pub mod calendar;
pub mod description;
pub mod dispatch;
pub mod ical;
pub mod lines;
pub mod links;
pub mod location;
pub mod model;
pub mod publish;
pub mod registry;
pub mod text;
