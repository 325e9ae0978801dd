//! Verified core of an owner-fee ledger for a residential estate: exact decimal
//! money arithmetic, the fee rules of a property bill, the balance rules of the
//! owner-fee stream, meter readings, price tables, approvals and accounts.
//! Storage, HTTP and spreadsheet output live outside this crate.

pub mod decimal;
pub mod text;
pub mod error;
pub mod owner_fee;
pub mod fee_service;
pub mod grouping;
pub mod component;
pub mod property_fee;
pub mod price_basic;
pub mod owner_info;
pub mod room_info;
pub mod tool_table;
pub mod user;
pub mod password;
pub mod approve;
pub mod attachment;
pub mod property_fee_service;
pub mod sheet_layout;
