//! The vault's instructions, one module each.

pub mod init_store;
pub mod init_store_atas;
pub mod lz_receive;
pub mod lz_receive_types;
pub mod lz_receive_types_v2;
pub mod set_alt;
pub mod set_jl_config;
