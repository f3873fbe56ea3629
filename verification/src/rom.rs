//! The check of a program file before it is read.

use vstd::prelude::*;

verus! {

/// What is said of a path that names no file.
pub open spec fn missing_file() -> Seq<char> {
    "File does not exist."@
}

/// Accepts the path of a program where it names a file; `is_file` tells
/// whether it does.
pub fn rom_exists(is_file: bool) -> (verdict: Result<(), &'static str>)
    ensures
        is_file ==> verdict is Ok,
        !is_file ==> verdict is Err && verdict->Err_0@ == missing_file(),
{
    if !is_file {
        Err("File does not exist.")
    } else {
        Ok(())
    }
}

} // verus!
