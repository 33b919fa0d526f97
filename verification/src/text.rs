//! What std's text operations that vstd leaves unspecified are relied on for.

use vstd::prelude::*;

verus! {

/// `String::push` appends one character: the text afterwards is the text
/// before with `ch` at its end, as std documents it.
pub assume_specification[ String::push ](s: &mut String, ch: char)
    ensures
        final(s)@ == old(s)@.push(ch),
;

} // verus!
