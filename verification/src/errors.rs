use vstd::prelude::*;

verus! {

/// The errors that the container runtime reports. The number that a variant
/// carries tells which step of its module failed.
#[derive(Debug, Clone, Copy, PartialEq, Eq)]
pub enum Errcode {
    ContainerError(u8),
    SocketError(u8),
    ChildProcessError(u8),
    ArgumentInvalid(&'static str),
    RngError,
    HostnameError(u8),
    MountsError(u8),
    ResourcesError(u8),
}

/// The code with which the process leaves after an error: every error is
/// reported as a nonzero code.
pub open spec fn spec_retcode(e: Errcode) -> i32 {
    1
}

/// The code with which the process leaves once the container has run:
/// zero for success, the error's code otherwise.
pub open spec fn spec_exit_code(res: Result<(), Errcode>) -> i32 {
    match res {
        Ok(_) => 0,
        Err(e) => spec_retcode(e),
    }
}

impl Errcode {
    pub fn get_retcode(&self) -> (r: i32)
        ensures
            r == spec_retcode(*self),
            r != 0,
    {
        1
    }
}

/// The decision of `exit_with_retcode`: which code the process exits with.
pub fn exit_code(res: &Result<(), Errcode>) -> (r: i32)
    ensures
        r == spec_exit_code(*res),
        (r == 0) <==> res is Ok,
{
    match res {
        Ok(_) => 0,
        Err(e) => e.get_retcode(),
    }
}

} // verus!
