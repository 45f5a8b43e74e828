//! The verified core of the MCCL node: instance records, the menus that list
//! and select them, the session protocol with the remote service, the
//! connection plans of the peer-to-peer proxy and the launch of the server.

pub mod ids;
pub mod instance;
pub mod instances;
pub mod instances_reader;
pub mod json_doc;
pub mod keys;
pub mod launcher;
pub mod menus;
pub mod node;
pub mod relay;
pub mod service;
pub mod session;
pub mod style;
pub mod text;
