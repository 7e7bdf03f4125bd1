//! Decoder for the persisted form of ActiveX user forms.
//!
//! A form is stored in three streams of a compound file: the form stream with
//! the properties of the form, its class table and the sites of its embedded
//! controls; the object stream with the controls themselves, one behind the
//! other; and a stream that names the class of the form. This crate decodes
//! the bytes of those streams; it does not open the container.
//!
//! The layout of a record follows from its property mask: a bit says whether
//! a property is stored, a property that is not stored has its default and
//! takes no bytes, and every stored field sits at its natural alignment on a
//! cursor that belongs to the record. [`common::props`] states that layout once
//! for all records; each record declares its table.
//!
//! Every decoder comes with a `spec` function that says, for every
//! input, which value or which [`error::DecodeError`] it yields, and the
//! decoder is proved to yield exactly that.
pub mod common;
pub mod controls;
pub mod error;
pub mod properties;
pub mod sites;
