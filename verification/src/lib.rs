//! Housing logic of the Kawari world server: estate selection and
//! authority checks, ward and furniture packet building, appearance
//! (fixture) staging, interior pattern territories and ReMakePlace
//! preset import, all stated over plain values and verified.
mod seq_util;

pub mod common;
pub mod inventory;
pub mod state;
pub mod fixture_json;
pub mod ipc;
pub mod database;
pub mod context;
pub mod serialization;
pub mod gamedata;
pub mod furniture;
pub mod housing_item_operation;
pub mod init;
pub mod zone_connection;
pub mod fixtures;
pub mod entry;
pub mod ward;
pub mod remake_place;
pub mod presets;
pub mod placement;
pub mod zoning;
pub mod appearance;
pub mod commands;
pub mod preset_text;
pub mod laws;
