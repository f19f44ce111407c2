//! Decoder for an offset-addressed, big-endian binary mesh container.
//!
//! The input is a finite byte source held in memory. Every pointer field in
//! the format is an absolute byte offset from the start of the source, with
//! offset 0 reserved to mean "absent / no more". The decoder resolves those
//! offsets into a tree of typed records: interned strings, shared materials,
//! a vertex-array block, and chains of facelist sets, each facelist carrying
//! a homogeneous run of triangles whose fixed layout is selected by a
//! one-byte type tag.
//!
//! Records that can be referenced from more than one place (materials and
//! interned strings) are decoded at most once per source and shared through
//! arena indices: the decoded object owns one arena per shared record type,
//! and every owner stores an index into that arena, so two owners that name
//! the same source offset observe the same decoded instance.
//!
//! A sibling, simpler offset-addressed scene-placement format — flat
//! fixed-size records, no shared records — is decoded by the `sf` module;
//! its placements reference this format's decoded geometry by name.

pub mod bytes;
pub mod chain;
pub mod decode;
pub mod error;
pub mod laws;
pub mod model;
pub mod sf;
