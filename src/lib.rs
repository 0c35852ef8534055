//! Decoding core of a NetFlow v5 / IPFIX collector: wire codecs, the
//! information-element registry, the per-exporter template cache and the
//! datagram decoders.
pub mod bytes;
pub mod error;
pub mod field_type;
pub mod ipfix;
pub mod netflow5;
pub mod flow;
pub mod exporters;
pub mod listener;
