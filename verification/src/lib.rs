//! C preprocessor boilerplate for GObject-style runtime types.
//!
//! A [`gobject::GObject`] node describes one externally visible dynamic type:
//! its host-language path, its runtime name and one of five kinds. The crate
//! loads such nodes from already parsed declarations, reports the types they
//! refer to, resolves those references and renders the macro group of each
//! node. Every function carries a contract that Verus proves.

pub mod text;
pub mod case;
pub mod ir;
pub mod cfg;
pub mod metadata;
pub mod syntax;
pub mod gobject;
pub mod writer;
pub mod template;
pub mod names;
pub mod render;
pub mod load;
pub mod dependencies;
pub mod resolve;
pub mod laws;
