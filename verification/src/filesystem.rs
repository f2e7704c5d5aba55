use vstd::prelude::*;

use crate::config::ContainerOpts;
use crate::errors::Errcode;
use crate::plan::{OpView, StepView, SysOp, SysStep};

verus! {

/// The arguments of `sudo` that install a Debian system into `dest`.
pub open spec fn debootstrap_args(dest: Seq<char>) -> Seq<Seq<char>> {
    seq!["debootstrap"@, "stable"@, dest, "http://deb.debian.org/debian"@]
}

/// Runs debootstrap into `dest`; it fails only when the command cannot be
/// started.
pub open spec fn debootstrap_step(dest: Seq<char>) -> StepView {
    StepView {
        op: OpView::Run { program: "sudo"@, args: debootstrap_args(dest) },
        on_error: Errcode::ArgumentInvalid("debootstrap error"),
    }
}

/// Installs a Debian system into `dest`.
pub fn debootstrap(dest: &str) -> (step: SysStep)
    ensures
        step.deep_view() == debootstrap_step(dest@),
{
    let mut args: Vec<String> = Vec::new();
    args.push(String::from_str("debootstrap"));
    args.push(String::from_str("stable"));
    args.push(String::from_str(dest));
    args.push(String::from_str("http://deb.debian.org/debian"));
    assert(args.deep_view() =~= debootstrap_args(dest@));
    SysStep {
        op: SysOp::Run { program: String::from_str("sudo"), args },
        on_error: Errcode::ArgumentInvalid("debootstrap error"),
    }
}

/// Fills the container's mount directory with a Debian system.
pub fn setfilesystem(config: &ContainerOpts) -> (plan: Vec<SysStep>)
    ensures
        plan.deep_view() == seq![debootstrap_step(config.mount_dir@)],
{
    let mut plan: Vec<SysStep> = Vec::new();
    plan.push(debootstrap(config.mount_dir.as_str()));
    assert(plan.deep_view() =~= seq![debootstrap_step(config.mount_dir@)]);
    plan
}

/// Debootstrap is run through `sudo` as `debootstrap stable <dest>
/// http://deb.debian.org/debian`, with the destination exactly as given.
pub proof fn lemma_debootstrap_into_dest(dest: Seq<char>)
    ensures
        debootstrap_step(dest).op matches OpView::Run { program, args } && program == "sudo"@
            && args.len() == 4 && args[0] == "debootstrap"@ && args[1] == "stable"@ && args[2]
            == dest && args[3] == "http://deb.debian.org/debian"@,
{
}

} // verus!
