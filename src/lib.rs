//! Neutron cross-section lookup in a nuclear-data archive and the checks
//! that guard the Maxwellian-averaged cross-section computation.

pub mod archive;
pub mod macs;
