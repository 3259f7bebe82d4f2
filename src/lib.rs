// Bridges a closure, optionally bound to a mutable receiver, through an entry
// point of fixed shape that receives one opaque context: the closure is
// packaged into a single owned block, and the entry point takes that block
// back exactly once and runs it.

pub mod laws;
pub mod payload;
pub mod thingy;
