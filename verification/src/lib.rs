//! Constitutional time for multi-agent clock synchronisation: observation stamps,
//! the keyed digest that authenticates gossip ticks, the steering decision trees
//! of the cast spine, and the post-quantum primitives the mesh relies on.

pub mod crypto;
pub mod wire;
pub mod observation;
pub mod text;
pub mod decision_tree;
pub mod design_sheaf;
pub mod frame_spine;
pub mod gate;
pub mod p2p;
pub mod rapl;
