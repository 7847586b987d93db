//! The fixed greeting lines of the side snippet.

use vstd::prelude::*;

verus! {

/// Returns the fixed lines that the snippet prints, in order.
pub fn greeting_lines() -> (r: Vec<String>)
    ensures
        r@.len() == 2,
        r@[0]@ == "Hello, world!"@,
        r@[1]@ == "This is a macro!"@,
{
    let mut v: Vec<String> = Vec::new();
    v.push(String::from_str("Hello, world!"));
    v.push(String::from_str("This is a macro!"));
    v
}

} // verus!
