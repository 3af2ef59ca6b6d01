//! A stateless relay contract for exercising a contract host: it forwards the
//! data, sub-messages, attributes and events it is given, and on a reply it
//! decodes the sub-call's response envelope and surfaces the inner data.

mod host_types;

pub mod envelope;

pub mod relay;

pub mod correlation;
