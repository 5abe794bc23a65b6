//! A model of attacks across a safe-language / foreign-code trust boundary.
//!
//! A composite record (`Data`) is exposed to an untrusted foreign component by
//! raw numeric address.  Five attack families each break one safety invariant:
//! static bounds containment, referent lifetime, hardening of local control
//! data, dynamic-collection metadata, and indirect-call provenance.  Each
//! family is a verified run function whose contract pins down exactly which
//! state the adversary's capability can corrupt, how the corruption is
//! observed when the safe side resumes, and that a declined capability
//! reproduces the uncorrupted baseline.

pub mod adversary;
pub mod bounds;
pub mod callable;
pub mod dynbounds;
pub mod exposure;
pub mod hardening;
pub mod laws;
pub mod lifetime;
pub mod poisoning;
pub mod record;
pub mod trace;
