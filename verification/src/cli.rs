use vstd::prelude::*;

use crate::errors::Errcode;

verus! {

/// The command line of the runtime.
#[derive(Debug)]
pub struct MyOptions {
    /// Print the help message.
    pub help: bool,
    /// Log at the debug level.
    pub debug: bool,
    /// The command to execute inside the container.
    pub command: String,
    /// The user id to create inside the container.
    pub uid: u32,
    /// The directory to mount as the root of the container.
    pub mount_dir: String,
}

/// The level at which the runtime logs.
#[derive(Debug, Clone, Copy, PartialEq, Eq, Structural)]
pub enum LogLevel {
    Debug,
    Info,
}

/// Debug logging when asked for, informational logging otherwise.
pub fn log_level(opts: &MyOptions) -> (level: LogLevel)
    ensures
        level == (if opts.debug {
            LogLevel::Debug
        } else {
            LogLevel::Info
        }),
{
    if opts.debug {
        LogLevel::Debug
    } else {
        LogLevel::Info
    }
}

/// Whether `e` is the error that names the invalid argument `arg`.
pub open spec fn is_invalid_argument(e: Errcode, arg: Seq<char>) -> bool {
    e matches Errcode::ArgumentInvalid(a) && a@ == arg
}

/// Checks the parsed command line: the command must not be empty, and the
/// mount directory must exist and be a directory (`mount_exists` and
/// `mount_is_dir` say what the file system answered for it).
pub fn parse_args(opts: MyOptions, mount_exists: bool, mount_is_dir: bool) -> (r: Result<
    MyOptions,
    Errcode,
>)
    ensures
        opts.command@.len() == 0 ==> (r matches Err(e) && is_invalid_argument(e, "command"@)),
        opts.command@.len() > 0 && !(mount_exists && mount_is_dir) ==> (r matches Err(e)
            && is_invalid_argument(e, "mount"@)),
        opts.command@.len() > 0 && mount_exists && mount_is_dir ==> r == Ok::<
            MyOptions,
            Errcode,
        >(opts),
{
    if opts.command.as_str().is_empty() {
        return Err(Errcode::ArgumentInvalid("command"));
    }
    if !mount_exists || !mount_is_dir {
        return Err(Errcode::ArgumentInvalid("mount"));
    }
    Ok(opts)
}

} // verus!
