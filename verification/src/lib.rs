pub mod assoc;
pub mod ast;
pub mod bindings;
pub mod compile;
pub mod context;
pub mod document;
pub mod ids;
pub mod join;
pub mod laws;
pub mod linked;
pub mod prefixes;
pub mod props;
pub mod reduce;
pub mod scope;
pub mod store;
pub mod store_nodes;
pub mod symbol_paths;
pub mod symbols;
pub mod text;
pub mod traits;
