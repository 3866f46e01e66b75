/// A stack of `i32` values in a chain of boxed nodes.
pub mod first;
/// A generic stack in a chain of boxed nodes, with borrowing, mutating and
/// owning cursors.
pub mod second;
/// A persistent list whose nodes are shared, by reference counting, between
/// the lists built from them.
pub mod third;
