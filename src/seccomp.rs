//! The program descriptor and the reading of the kernel's answer.
//!
//! Installing a filter takes two `prctl` calls: one that forbids the
//! process further privileges, and one that hands the kernel a descriptor
//! of the program. The calls themselves are made outside this library;
//! what they are given and what their answer means is stated here.
use vstd::prelude::*;
use crate::abi::{SockFilter, SockFilterProg, BPF_MAXINSNS};

verus! {

impl<'a> SockFilterProg<'a> {
    /// Construct a new SockFilterProg from a slice of instructions
    ///
    /// The descriptor borrows the slice and records its length, which must
    /// not exceed the kernel's limit on program size.
    pub fn new(instructions: &'a [SockFilter]) -> (r: SockFilterProg<'a>)
        requires
            instructions@.len() <= BPF_MAXINSNS,
        ensures
            r.len == instructions@.len(),
            r.filter@ == instructions@,
    {
        SockFilterProg { len: instructions.len() as u16, filter: instructions }
    }
}

/// Read the result of the `prctl` call that installs a filter: zero is
/// success, anything else is the kernel's error code, returned as it is.
pub fn activation_result(code: isize) -> (r: Result<(), isize>)
    ensures
        r is Ok <==> code == 0,
        r is Err ==> r == Err::<(), isize>(code),
{
    if code == 0 {
        Ok(())
    } else {
        Err(code)
    }
}

} // verus!
