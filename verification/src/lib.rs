//! Building and enforcing SECCOMP filters on top of libseccomp.
//!
//! The data the kernel is handed (action codes, filter attributes, syscall
//! numbers) and the decisions taken on what libseccomp answers are defined and
//! proved here. The calls into the C library itself are made by the code that
//! links it, which hands their results to the functions of this crate.

pub mod action;
pub mod attribute;
pub mod filter;
pub mod raw;
pub mod syscall;
pub mod text;
