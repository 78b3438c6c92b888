//! Builders of in-memory models for an electronic-design toolchain.
//!
//! A grammar engine turns the text of a timing library, of a cell's function
//! string, of a waveform file or of a gate-level netlist into a parse tree.
//! This crate takes such a tree, as a plain [`parse_tree::ParseNode`], and
//! reduces it to a typed model: statements and attribute values
//! ([`liberty_parser`]), Boolean expressions ([`liberty_expr`]), the header of
//! a waveform file ([`vcd_parser`]) and the modules of a netlist
//! ([`verilog_builder`]). A netlist can then be flattened into a single module
//! that holds instances of library cells only ([`verilog_parser`]).
//!
//! Every function states what it returns over the mathematical value of its
//! arguments, and every failure is a value: nothing here aborts.

pub mod error;
pub mod liberty_data;
pub mod liberty_expr;
pub mod liberty_expr_data;
pub mod liberty_expr_laws;
pub mod liberty_parser;
pub mod liberty_writer;
pub mod parse_tree;
pub mod reduction;
pub mod text;
pub mod vcd_data;
pub mod vcd_parser;
pub mod verilog_builder;
pub mod verilog_c_api;
pub mod verilog_data;
pub mod verilog_laws;
pub mod verilog_parser;
