pub mod cni;
pub mod namespace;
