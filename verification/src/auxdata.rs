//! Auxiliary data: a pointer that the host keeps for one argument of a
//! function, for as long as the host sees fit.

use vstd::prelude::*;
use crate::context::{Context, HostCall, HostCallView};

verus! {

/// Stores the pointer `p` for the argument in column `col`, with the
/// destructor `d` that the host is to run on it. Both are addresses, which
/// pass through unread.
pub fn auxdata_set(context: &mut Context, col: i32, p: usize, d: Option<usize>)
    ensures
        final(context)@ == old(context)@.push(
            HostCallView::Auxdata { column: col, pointer: p, destructor: d },
        ),
{
    context.record(HostCall::Auxdata { column: col, pointer: p, destructor: d });
}

} // verus!
