use vstd::prelude::*;

use crate::errors::Errcode;
use crate::plan::{OpView, StepView, SysOp, SysStep};

verus! {

pub const KMEM_LIMIT: i64 = 2048 * 1024 * 1024;

pub const MEM_LIMIT: i64 = KMEM_LIMIT;

/// The most processes that the container's control group admits.
pub const MAX_PID: i64 = 256;

pub const NOFILE_RLIMIT: u64 = 1024;

pub const CPU_SHARES: u64 = 256;

pub const BLKIO_WEIGHT: u16 = 50;

/// The control-group hierarchy that a group is created in.
#[derive(Debug, Clone, Copy, PartialEq, Eq, Structural)]
pub enum CgroupHierarchy {
    /// The unified hierarchy of cgroup v2.
    V2,
}

/// The control group that confines a container.
#[derive(Debug)]
pub struct CgroupSpec {
    pub name: String,
    pub cpu_shares: u64,
    pub memory_hard_limit: i64,
    pub max_processes: i64,
    pub blkio_weight: u16,
    pub hierarchy: CgroupHierarchy,
}

/// `CgroupSpec` with its name taken as a character sequence.
pub struct CgroupView {
    pub name: Seq<char>,
    pub cpu_shares: u64,
    pub memory_hard_limit: i64,
    pub max_processes: i64,
    pub blkio_weight: u16,
    pub hierarchy: CgroupHierarchy,
}

impl DeepView for CgroupSpec {
    type V = CgroupView;

    open spec fn deep_view(&self) -> CgroupView {
        CgroupView {
            name: self.name@,
            cpu_shares: self.cpu_shares,
            memory_hard_limit: self.memory_hard_limit,
            max_processes: self.max_processes,
            blkio_weight: self.blkio_weight,
            hierarchy: self.hierarchy,
        }
    }
}

/// The control group named after the container's hostname: 256 cpu shares,
/// 2 GiB of memory, 256 processes and a block I/O weight of 50, created in
/// the unified (v2) hierarchy.
pub open spec fn cgroup_for(hostname: Seq<char>) -> CgroupView {
    CgroupView {
        name: hostname,
        cpu_shares: 256,
        memory_hard_limit: 2147483648,
        max_processes: 256,
        blkio_weight: 50,
        hierarchy: CgroupHierarchy::V2,
    }
}

/// The operations that confine the process `pid`: build its control group,
/// put the process in it, and limit open files to 1024.
pub open spec fn restrict_plan(hostname: Seq<char>, pid: u64) -> Seq<StepView> {
    seq![
        StepView {
            op: OpView::BuildCgroup { spec: cgroup_for(hostname) },
            on_error: Errcode::ResourcesError(0),
        },
        StepView { op: OpView::AddTaskToCgroup { pid }, on_error: Errcode::ResourcesError(1) },
        StepView {
            op: OpView::LimitOpenFiles { soft: 1024, hard: 1024 },
            on_error: Errcode::ResourcesError(2),
        },
    ]
}

/// Where the control group of `hostname` lives.
pub open spec fn cgroup_dir(hostname: Seq<char>) -> Seq<char> {
    "/sys/fs/cgroup/"@ + hostname + seq!['/']
}

/// The operations that remove the control group of `hostname`.
pub open spec fn clean_plan(hostname: Seq<char>) -> Seq<StepView> {
    seq![
        StepView {
            op: OpView::Canonicalize { path: cgroup_dir(hostname) },
            on_error: Errcode::ResourcesError(4),
        },
        StepView { op: OpView::RemoveCanonicalDir, on_error: Errcode::ResourcesError(3) },
    ]
}

pub fn cgroup_spec(hostname: &String) -> (c: CgroupSpec)
    ensures
        c.deep_view() == cgroup_for(hostname@),
{
    CgroupSpec {
        name: hostname.clone(),
        cpu_shares: CPU_SHARES,
        memory_hard_limit: MEM_LIMIT,
        max_processes: MAX_PID,
        blkio_weight: BLKIO_WEIGHT,
        hierarchy: CgroupHierarchy::V2,
    }
}

/// The operations that confine the container's process `pid`, named after
/// its hostname.
pub fn restrict_resources(hostname: &String, pid: i32) -> (plan: Vec<SysStep>)
    requires
        pid >= 0,
    ensures
        plan.deep_view() == restrict_plan(hostname@, pid as u64),
{
    let pid: u64 = pid as u64;
    let mut plan: Vec<SysStep> = Vec::new();
    plan.push(
        SysStep {
            op: SysOp::BuildCgroup { spec: cgroup_spec(hostname) },
            on_error: Errcode::ResourcesError(0),
        },
    );
    plan.push(SysStep { op: SysOp::AddTaskToCgroup { pid }, on_error: Errcode::ResourcesError(1) });
    plan.push(
        SysStep {
            op: SysOp::LimitOpenFiles { soft: NOFILE_RLIMIT, hard: NOFILE_RLIMIT },
            on_error: Errcode::ResourcesError(2),
        },
    );
    assert(plan.deep_view() =~= restrict_plan(hostname@, pid));
    plan
}

/// The operations that remove the container's control group.
pub fn clean_cgroups(hostname: &String) -> (plan: Vec<SysStep>)
    ensures
        plan.deep_view() == clean_plan(hostname@),
{
    let mut dir = String::from_str("/sys/fs/cgroup/");
    dir.append(hostname.as_str());
    dir.append("/");
    proof {
        reveal_strlit("/");
        assert("/"@ =~= seq!['/']);
    }
    assert(dir@ == cgroup_dir(hostname@));
    let mut plan: Vec<SysStep> = Vec::new();
    plan.push(SysStep { op: SysOp::Canonicalize { path: dir }, on_error: Errcode::ResourcesError(4) });
    plan.push(SysStep { op: SysOp::RemoveCanonicalDir, on_error: Errcode::ResourcesError(3) });
    assert(plan.deep_view()[0] == clean_plan(hostname@)[0]);
    assert(plan.deep_view() =~= clean_plan(hostname@));
    plan
}

/// A container's control group is named by its whole hostname, whatever its
/// length, and the directory that cleaning removes is that group's directory
/// under `/sys/fs/cgroup`: the hostname between `/sys/fs/cgroup/` and a
/// final `/`.
pub proof fn lemma_cgroup_named_by_hostname(hostname: Seq<char>, pid: u64)
    ensures
        restrict_plan(hostname, pid).len() == 3,
        restrict_plan(hostname, pid)[0].op matches OpView::BuildCgroup { spec } && spec.name
            == hostname,
        clean_plan(hostname).len() == 2,
        clean_plan(hostname)[0].op matches OpView::Canonicalize { path } && (path
            == "/sys/fs/cgroup/"@ + hostname + seq!['/'] && path.len() == hostname.len() + 16
            && path.subrange(15, 15 + hostname.len() as int) == hostname && path[path.len() - 1] == '/'),
        ({
            let built = restrict_plan(hostname, pid)[0].op;
            let removed = clean_plan(hostname)[0].op;
            built matches OpView::BuildCgroup { spec } && removed matches OpView::Canonicalize {
                path,
            } && path == "/sys/fs/cgroup/"@ + spec.name + seq!['/']
        }),
{
    reveal_strlit("/sys/fs/cgroup/");
    let path = "/sys/fs/cgroup/"@ + hostname + seq!['/'];
    assert(path.subrange(15, 15 + hostname.len() as int) =~= hostname);
}

} // verus!
