//! Verified core of the hydrographic survey simulator front ends: the text
//! handling, command parsing, request framing, access rules and form checks
//! that the web client and the administration command line share.

pub mod text;
pub mod numeral;
pub mod json;
pub mod cli;
pub mod api;
pub mod access;
pub mod delivery;
pub mod attempts;
pub mod forms;
pub mod views;
pub mod records;
pub mod survey;
