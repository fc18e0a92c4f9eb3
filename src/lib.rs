//! A weather lookup widget's verified core: percent-encoded request URLs for
//! a configurable provider, temperature display per provider unit, and the
//! submission state machine that starts at most one fetch at a time.

pub mod fetch;
pub mod laws;
pub mod provider;
pub mod shell;
pub mod url;
