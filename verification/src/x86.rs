//! Platform modules: the capability interface that architecture-specific
//! code must satisfy, stated here as verified reference semantics.

pub mod sse2;
