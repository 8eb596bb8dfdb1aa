//! Joining file system paths held as strings.
use vstd::prelude::*;

use crate::chars::{push_char, push_str};

verus! {

/// `name` appended to `base` as one more path component: with a `/` in
/// between unless `base` is empty or already ends with one.
pub open spec fn path_join(base: Seq<char>, name: Seq<char>) -> Seq<char> {
    if base.len() == 0 {
        name
    } else if base.last() == '/' {
        base + name
    } else {
        base + seq!['/'] + name
    }
}

/// `name` appended to `base` as one more path component.
pub fn join(base: &str, name: &str) -> (r: String)
    ensures
        r@ == path_join(base@, name@),
{
    let mut r = base.to_owned();
    let n = base.unicode_len();
    if n > 0 && base.get_char(n - 1) != '/' {
        push_char(&mut r, '/');
    }
    push_str(&mut r, name);
    proof {
        if n > 0 {
            assert(base@.last() == base@[n - 1]);
        }
    }
    r
}

} // verus!
