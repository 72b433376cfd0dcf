//! Glue between systems.

use vstd::prelude::*;

verus! {

/// Runs a second system only where a first one says so.
pub struct RunIfTrue;

impl RunIfTrue {
    /// Runs `a` on `input`; where it returns true, runs `b` and returns what `b`
    /// returns, else returns the default without running `b`.
    pub fn combine<In, BOut: Default, A: FnOnce(In) -> bool, B: FnOnce(()) -> BOut>(
        input: In,
        a: A,
        b: B,
    ) -> (out: BOut)
        requires
            a.requires((input,)),
            a.ensures((input,), true) ==> b.requires(((),)),
        ensures
            exists|go: bool|
                a.ensures((input,), go) && if go {
                    b.ensures(((),), out)
                } else {
                    call_ensures(BOut::default, (), out)
                },
    {
        if a(input) {
            b(())
        } else {
            BOut::default()
        }
    }
}

} // verus!
