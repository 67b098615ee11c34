//! A topic descriptor: its name and its canonical message type.

use vstd::prelude::*;

verus! {

/// A named, typed channel on the bus.
#[derive(Debug, Clone, PartialEq)]
pub struct Topic {
    /// The topic name, such as `/foo`.
    pub name: String,
    /// The canonical ROS message type, `package/MsgName`.
    pub data_type: String,
}

} // verus!
