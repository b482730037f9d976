//! An address taken apart: the domain with its labels, and the whole
//! address with scheme, domain and path.

pub mod domain;
pub mod uniform_resource_identifier;
