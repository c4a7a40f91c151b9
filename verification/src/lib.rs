//! Edit model for loot-table documents: a flat list of `<type>` entries, each
//! with an ordered list of fields that stand for element texts and element
//! attributes.

pub mod action;
pub mod batch;
pub mod commands;
pub mod display;
pub mod document;
pub mod error;
pub mod history;
pub mod listing;
pub mod model;
pub mod parse;
pub mod picker;
pub mod remote;
pub mod roundtrip;
pub mod selection;
pub mod serialize;
pub mod session;
pub mod state;
pub mod text;
pub mod xml_io;
