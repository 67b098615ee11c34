//! The XMLRPC values the node logic reads and builds.
//!
//! The master API and the slave API exchange XMLRPC values.  The node's
//! decisions only ever look at integers, booleans, strings and arrays, so
//! those are the shapes modelled here; the text form of a value lives at
//! the HTTP edge.

use vstd::prelude::*;

verus! {

/// An XMLRPC value as the node's logic sees it.
#[derive(Debug, PartialEq)]
pub enum Value {
    /// A four-byte signed integer.
    Int(i32),
    /// A boolean.
    Bool(bool),
    /// A string.
    Str(String),
    /// An array of values.
    Array(Vec<Value>),
}

/// Unwraps singleton array wrappers: as long as the list is exactly one
/// array value, descend into it.  The master wraps its results this way.
pub open spec fn spec_unwrap_wrappers(vals: Seq<Value>) -> Seq<Value>
    decreases vals,
{
    if vals.len() == 1 && (vals[0] is Array) {
        spec_unwrap_wrappers(vals[0]->Array_0@)
    } else {
        vals
    }
}

/// Strips any leading singleton-array wrappers from a value list.
pub fn remove_array_wrappers(data: Vec<Value>) -> (r: Vec<Value>)
    ensures
        r@ == spec_unwrap_wrappers(data@),
{
    let ghost orig = data@;
    let mut cur = data;
    loop
        invariant
            orig == data@,
            spec_unwrap_wrappers(orig) == spec_unwrap_wrappers(cur@),
        decreases cur@,
    {
        if cur.len() != 1 {
            return cur;
        }
        let ghost before = cur@;
        let first = cur.pop().unwrap();
        proof {
            assert(before[0] == first);
        }
        match first {
            Value::Array(children) => {
                cur = children;
            },
            other => {
                let mut out: Vec<Value> = Vec::new();
                out.push(other);
                proof {
                    assert(out@ =~= before);
                }
                return out;
            },
        }
    }
}

} // verus!
