//! Turns a boolean search condition into a compact JSON document.
//!
//! A query text is parsed into a [`condition::ConditionTree`], mapped node by node
//! onto a [`document::ConditionJson`] and written out as JSON text. Every
//! function states what it returns over the mathematical views of these types.

#![allow(unused_imports)]

pub mod bridge;
pub mod condition;
pub mod document;
pub mod mapper;
pub mod parser;
pub mod readback;
pub mod text;
