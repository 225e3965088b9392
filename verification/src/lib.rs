//! Verified core of a river-channel water-security survey tool.
//!
//! The survey records channel geometry, flood levels and silt depths, and
//! derives a dredging threshold and verdict from them. Everything the tool
//! decides or computes lives here, verified: fixed-point decimal parsing and
//! rendering (`fixed`, `render`), exact rationals and rounding (`rat`), the
//! threshold calculation (`calc`) with its closed-form law (`formula`), form
//! validation (`form`), SQL construction and the record store (`db`,
//! `security_model`), spreadsheet transfer (`xfer`), and the save, delete
//! and display flows (`flows`). The store's SQLite driver and the clock sit
//! behind the trusted boundaries in `sqlite` and `clock`.

pub mod calc;
pub mod clock;
pub mod db;
pub mod fixed;
pub mod flows;
pub mod form;
pub mod formula;
pub mod rat;
pub mod render;
pub mod security_model;
pub mod sqlite;
pub mod text;
pub mod xfer;
