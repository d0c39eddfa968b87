//! Survey configuration: the data models of each configuration layer, their
//! validation, the loader's decisions and the adapters from the YAML layouts
//! found in survey directories.

pub mod model;
pub mod validator;
pub mod yaml_adapter;
pub mod yaml_tree;
pub mod loader;
