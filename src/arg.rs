//! The argument that an item passes on when it is chosen.
use vstd::prelude::*;

verus! {

/// One argument, or several.
#[derive(Debug, Clone, PartialEq, Eq, Hash)]
pub enum Arg {
    One(String),
    Many(Vec<String>),
}

} // verus!
