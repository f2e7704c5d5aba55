use rustualize::api::RustualizeApi;
use rustualize::cli::{log_level, parse_args, LogLevel, MyOptions};
use rustualize::config::{command_is_runnable, split_ascii_whitespace, ContainerOpts};
use rustualize::container::{start, wait_child, Container, Event, Stage};
use rustualize::errors::{exit_code, Errcode};
use rustualize::filesystem::{debootstrap, setfilesystem};
use rustualize::hostname::{
    format_hostname, generate_hostname, set_container_hostname, HOSTNAME_ADJ, HOSTNAME_NAMES,
};
use rustualize::mounts::{
    clean_mounts, combine_flags, create_directory, delete_dir, mount_directory, random_string,
    setmountpoint, setmountpoint_plan, unmount_path, MountFlag, MountFlags, CHARSET,
};
use rustualize::plan::{PlanRun, SysOp, SysStep};
use rustualize::resources::{
    clean_cgroups, restrict_resources, CgroupHierarchy, KMEM_LIMIT, MEM_LIMIT,
};

fn opts(command: &str, debug: bool) -> MyOptions {
    MyOptions {
        help: false,
        debug,
        command: command.to_string(),
        uid: 0,
        mount_dir: "/tmp/root".to_string(),
    }
}

fn is_hostname(h: &str) -> bool {
    HOSTNAME_ADJ.iter().any(|a| {
        HOSTNAME_NAMES.iter().any(|n| {
            (0..=255u16).any(|num| h == format!("{}-{}-{}", a, n, num))
        })
    })
}

#[test]
fn retcode_is_nonzero_and_exit_code_follows_outcome() {
    assert_eq!(Errcode::RngError.get_retcode(), 1);
    assert_eq!(Errcode::MountsError(3).get_retcode(), 1);
    assert_eq!(exit_code(&Ok(())), 0);
    assert_eq!(exit_code(&Err(Errcode::ContainerError(1))), 1);
}

#[test]
fn parse_args_rejects_empty_command() {
    let r = parse_args(opts("", false), true, true);
    assert!(matches!(r, Err(Errcode::ArgumentInvalid("command"))));
}

#[test]
fn parse_args_rejects_missing_or_plain_mount() {
    assert!(matches!(
        parse_args(opts("/bin/bash", false), false, false),
        Err(Errcode::ArgumentInvalid("mount"))
    ));
    assert!(matches!(
        parse_args(opts("/bin/bash", false), true, false),
        Err(Errcode::ArgumentInvalid("mount"))
    ));
}

#[test]
fn parse_args_accepts_command_and_directory() {
    let r = parse_args(opts("/bin/bash -l", true), true, true).unwrap();
    assert_eq!(r.command, "/bin/bash -l");
    assert_eq!(r.mount_dir, "/tmp/root");
    assert!(r.debug);
}

#[test]
fn log_level_follows_debug_flag() {
    assert_eq!(log_level(&opts("ls", true)), LogLevel::Debug);
    assert_eq!(log_level(&opts("ls", false)), LogLevel::Info);
}

#[test]
fn split_matches_std_on_ascii_whitespace() {
    let cases = [
        "  ls -la\t/tmp\n",
        "/bin/sh",
        "",
        "   ",
        "a\x0Cb\rc",
        "a\x0Bb",
        "échelle  née",
        "x  y   z ",
    ];
    for c in cases.iter() {
        let mine = split_ascii_whitespace(c);
        let theirs: Vec<String> = c.split_ascii_whitespace().map(|s| s.to_string()).collect();
        assert_eq!(mine, theirs, "on {:?}", c);
    }
    assert_eq!(split_ascii_whitespace("  ls -la\t/tmp\n"), vec!["ls", "-la", "/tmp"]);
}

#[test]
fn runnable_commands() {
    assert!(command_is_runnable("/bin/bash"));
    assert!(!command_is_runnable("   \t"));
    assert!(!command_is_runnable(""));
    assert!(!command_is_runnable("ls\0-l"));
}

#[test]
fn container_opts_from_command() {
    let (c, socks) = ContainerOpts::new(
        "  /bin/sh  -c ls ".to_string(),
        1000,
        "/srv/rootfs".to_string(),
        Ok((3, 4)),
        Ok("kaos-jm-3".to_string()),
    )
    .unwrap();
    assert_eq!(socks, (3, 4));
    assert_eq!(c.path, "/bin/sh");
    assert_eq!(c.argv, vec!["/bin/sh", "-c", "ls"]);
    assert_eq!(c.uid, 1000);
    assert_eq!(c.mount_dir, "/srv/rootfs");
    assert_eq!(c.fd, 4);
    assert_eq!(c.hostname, "kaos-jm-3");
}

#[test]
fn container_opts_hands_on_socket_error() {
    let r = ContainerOpts::new(
        "ls".to_string(),
        0,
        "/mnt".to_string(),
        Err(Errcode::SocketError(0)),
        Err(Errcode::RngError),
    );
    assert!(matches!(r, Err(Errcode::SocketError(0))));
    let r = ContainerOpts::new("ls".to_string(), 0, "/mnt".to_string(), Ok((1, 2)), Err(Errcode::RngError));
    assert!(matches!(r, Err(Errcode::RngError)));
}

#[test]
fn hostname_format() {
    assert_eq!(format_hostname("kaos", "stupidi", 7), "kaos-stupidi-7");
    assert_eq!(format_hostname("jm", "(arrivo?)", 0), "jm-(arrivo?)-0");
    assert_eq!(format_hostname("gue", "bolobynight", 10), "gue-bolobynight-10");
    assert_eq!(format_hostname("nitro", "disneyinferno", 255), "nitro-disneyinferno-255");
    assert_eq!(format_hostname("a", "b", 100), "a-b-100");
}

#[test]
fn generated_hostnames_take_their_parts_from_the_lists() {
    for _ in 0..50 {
        let h = generate_hostname().unwrap();
        assert!(is_hostname(&h), "{}", h);
    }
}

#[test]
fn hostname_step() {
    let s = set_container_hostname(&"kaos-jm-3".to_string());
    assert!(matches!(&s.op, SysOp::SetHostname { name } if name == "kaos-jm-3"));
    assert_eq!(s.on_error, Errcode::HostnameError(0));
}

#[test]
fn random_strings_use_the_charset() {
    for n in [0usize, 1, 6, 12, 40] {
        let s = random_string(n);
        assert_eq!(s.chars().count(), n);
        assert!(s.chars().all(|c| CHARSET.contains(&c)));
        assert!(!s.contains('c'));
    }
}

#[test]
fn flags_combine() {
    let f = combine_flags(&vec![MountFlag::Bind, MountFlag::Rec, MountFlag::Private]);
    assert_eq!(f, MountFlags { rec: true, private: true, bind: true });
    let f = combine_flags(&vec![MountFlag::Rec, MountFlag::Rec]);
    assert_eq!(f, MountFlags { rec: true, private: false, bind: false });
    let f = combine_flags(&vec![]);
    assert_eq!(f, MountFlags { rec: false, private: false, bind: false });
}

#[test]
fn single_mount_steps() {
    let m = mount_directory(None, &"/".to_string(), &vec![MountFlag::Rec]);
    assert!(matches!(&m.op, SysOp::Mount { source: None, target, flags }
        if target == "/" && *flags == MountFlags { rec: true, private: false, bind: false }));
    assert_eq!(m.on_error, Errcode::MountsError(3));
    assert_eq!(unmount_path(&"/x".to_string()).on_error, Errcode::MountsError(0));
    assert_eq!(delete_dir(&"/x".to_string()).on_error, Errcode::MountsError(1));
    assert_eq!(create_directory(&"/x".to_string()).on_error, Errcode::MountsError(2));
    assert!(clean_mounts(&"/x".to_string()).is_ok());
}

#[test]
fn mount_plan_in_order() {
    let plan = setmountpoint_plan(&"/srv/root".to_string(), &"ABCDEFGHIJKL".to_string(), &"xyz012".to_string());
    assert_eq!(plan.len(), 8);
    assert!(matches!(&plan[0].op, SysOp::Mount { source: None, target, flags }
        if target == "/" && *flags == MountFlags { rec: true, private: true, bind: false }));
    assert!(matches!(&plan[1].op, SysOp::CreateDirAll { path } if path == "/tmp/rustualize.ABCDEFGHIJKL"));
    assert!(matches!(&plan[2].op, SysOp::Mount { source: Some(s), target, flags }
        if s == "/srv/root" && target == "/tmp/rustualize.ABCDEFGHIJKL"
            && *flags == MountFlags { rec: true, private: true, bind: true }));
    assert!(matches!(&plan[3].op, SysOp::CreateDirAll { path }
        if path == "/tmp/rustualize.ABCDEFGHIJKL/oldroot.xyz012"));
    assert!(matches!(&plan[4].op, SysOp::PivotRoot { new_root, put_old }
        if new_root == "/tmp/rustualize.ABCDEFGHIJKL"
            && put_old == "/tmp/rustualize.ABCDEFGHIJKL/oldroot.xyz012"));
    assert!(matches!(&plan[5].op, SysOp::Chdir { path } if path == "/"));
    assert!(matches!(&plan[6].op, SysOp::Unmount { path } if path == "/oldroot.xyz012"));
    assert!(matches!(&plan[7].op, SysOp::RemoveDir { path } if path == "/oldroot.xyz012"));
    let errors: Vec<Errcode> = plan.iter().map(|s| s.on_error).collect();
    assert_eq!(
        errors,
        vec![3, 2, 3, 2, 4, 5, 0, 1].into_iter().map(Errcode::MountsError).collect::<Vec<_>>()
    );
}

#[test]
fn random_mount_plan_names() {
    let plan = setmountpoint(&"/srv/root".to_string());
    match &plan[4].op {
        SysOp::PivotRoot { new_root, put_old } => {
            let tag = new_root.strip_prefix("/tmp/rustualize.").unwrap();
            assert_eq!(tag.len(), 12);
            let old = put_old.strip_prefix(&format!("{}/oldroot.", new_root)).unwrap();
            assert_eq!(old.len(), 6);
            assert!(matches!(&plan[6].op, SysOp::Unmount { path } if *path == format!("/oldroot.{}", old)));
        }
        other => panic!("unexpected {:?}", other),
    }
}

fn step(op: SysOp, e: u8) -> SysStep {
    SysStep { op, on_error: Errcode::MountsError(e) }
}

fn three_steps() -> Vec<SysStep> {
    vec![
        step(SysOp::Chdir { path: "/".to_string() }, 7),
        step(SysOp::Unmount { path: "/a".to_string() }, 8),
        step(SysOp::RemoveDir { path: "/a".to_string() }, 9),
    ]
}

#[test]
fn plan_stops_at_first_failure() {
    let mut run = PlanRun::new(three_steps());
    assert!(matches!(run.pending(), Some(SysOp::Chdir { .. })));
    run.report(true);
    assert!(matches!(run.pending(), Some(SysOp::Unmount { .. })));
    run.report(false);
    assert!(run.pending().is_none());
    assert_eq!(run.outcome(), Some(Err(Errcode::MountsError(8))));
    run.report(true);
    assert_eq!(run.outcome(), Some(Err(Errcode::MountsError(8))));
}

#[test]
fn plan_succeeds_when_every_step_does() {
    let mut run = PlanRun::new(three_steps());
    for _ in 0..3 {
        assert_eq!(run.outcome(), None);
        run.report(true);
    }
    assert_eq!(run.outcome(), Some(Ok(())));
    assert!(run.pending().is_none());
}

#[test]
fn empty_plan_is_over_at_once() {
    let run = PlanRun::new(Vec::new());
    assert_eq!(run.outcome(), Some(Ok(())));
    assert!(run.pending().is_none());
}

#[test]
fn resource_plans() {
    assert_eq!(KMEM_LIMIT, 2147483648);
    assert_eq!(MEM_LIMIT, KMEM_LIMIT);
    let plan = restrict_resources(&"kaos-jm-1".to_string(), 4242);
    assert_eq!(plan.len(), 3);
    match &plan[0].op {
        SysOp::BuildCgroup { spec } => {
            assert_eq!(spec.name, "kaos-jm-1");
            assert_eq!(spec.cpu_shares, 256);
            assert_eq!(spec.memory_hard_limit, 2048 * 1024 * 1024);
            assert_eq!(spec.max_processes, 256);
            assert_eq!(spec.blkio_weight, 50);
            assert_eq!(spec.hierarchy, CgroupHierarchy::V2);
        }
        other => panic!("unexpected {:?}", other),
    }
    assert!(matches!(plan[1].op, SysOp::AddTaskToCgroup { pid: 4242 }));
    assert!(matches!(plan[2].op, SysOp::LimitOpenFiles { soft: 1024, hard: 1024 }));
    let errors: Vec<Errcode> = plan.iter().map(|s| s.on_error).collect();
    assert_eq!(errors, vec![Errcode::ResourcesError(0), Errcode::ResourcesError(1), Errcode::ResourcesError(2)]);

    let clean = clean_cgroups(&"kaos-jm-1".to_string());
    assert!(matches!(&clean[0].op, SysOp::Canonicalize { path } if path == "/sys/fs/cgroup/kaos-jm-1/"));
    assert_eq!(clean[0].on_error, Errcode::ResourcesError(4));
    assert!(matches!(clean[1].op, SysOp::RemoveCanonicalDir));
    assert_eq!(clean[1].on_error, Errcode::ResourcesError(3));
}

#[test]
fn debootstrap_plan() {
    let s = debootstrap("/srv/root");
    match &s.op {
        SysOp::Run { program, args } => {
            assert_eq!(program, "sudo");
            assert_eq!(args, &vec!["debootstrap", "stable", "/srv/root", "http://deb.debian.org/debian"]);
        }
        other => panic!("unexpected {:?}", other),
    }
    assert_eq!(s.on_error, Errcode::ArgumentInvalid("debootstrap error"));
    let (c, _) = ContainerOpts::new(
        "ls".to_string(),
        0,
        "/srv/root".to_string(),
        Ok((1, 2)),
        generate_hostname(),
    )
    .unwrap();
    assert_eq!(setfilesystem(&c).len(), 1);
}

#[test]
fn wait_child_outcomes() {
    assert_eq!(wait_child(None, false), Ok(()));
    assert_eq!(wait_child(Some(5), true), Ok(()));
    assert_eq!(wait_child(Some(5), false), Err(Errcode::ContainerError(1)));
}

#[test]
fn container_create_and_clean() {
    let mut c = Container::new(opts("ls -l", false), Ok((5, 6)), Ok("gue-stupidi-1".to_string())).unwrap();
    assert_eq!(c.child_pid, None);
    assert_eq!(c.sockets, (5, 6));
    assert_eq!(c.config.fd, 6);
    assert_eq!(c.config.hostname, "gue-stupidi-1");
    assert_eq!(c.config.argv, vec!["ls", "-l"]);
    assert_eq!(c.create(Err(Errcode::ChildProcessError(0))), Err(Errcode::ChildProcessError(0)));
    assert_eq!(c.child_pid, None);
    assert_eq!(c.create(Ok(77)), Ok(()));
    assert_eq!(c.child_pid, Some(77));
    assert_eq!(c.clean_exit(), Ok(()));
    assert!(matches!(
        Container::new(opts("ls", false), Err(Errcode::SocketError(0)), Ok("x".to_string())),
        Err(Errcode::SocketError(0))
    ));
    assert!(matches!(
        Container::new(opts("ls", false), Ok((1, 2)), Err(Errcode::RngError)),
        Err(Errcode::RngError)
    ));
}

#[test]
fn start_runs_to_success() {
    let mut run = start(opts("/bin/true", false));
    assert_eq!(run.stage(), Stage::OpenSockets);
    assert!(run.config().is_none());
    run.step(Event::Waited(true));
    assert_eq!(run.stage(), Stage::OpenSockets);
    run.step(Event::Sockets(Ok((3, 4))));
    assert_eq!(run.stage(), Stage::SpawnChild);
    assert_eq!(run.config().unwrap().path, "/bin/true");
    assert!(is_hostname(&run.config().unwrap().hostname));
    run.step(Event::Child(Ok(99)));
    assert_eq!(run.stage(), Stage::WaitChild(99));
    run.step(Event::Waited(true));
    assert_eq!(run.stage(), Stage::Finished(Ok(())));
    run.step(Event::Waited(false));
    assert_eq!(run.stage(), Stage::Finished(Ok(())));
}

#[test]
fn start_reports_each_failure() {
    let mut run = start(opts("/bin/true", false));
    run.step(Event::Sockets(Err(Errcode::SocketError(0))));
    assert_eq!(run.stage(), Stage::Finished(Err(Errcode::SocketError(0))));

    let mut run = start(opts("/bin/true", false));
    run.step(Event::Sockets(Ok((3, 4))));
    run.step(Event::Child(Err(Errcode::ChildProcessError(0))));
    assert_eq!(run.stage(), Stage::Finished(Err(Errcode::ChildProcessError(0))));

    let mut run = start(opts("/bin/true", false));
    run.step(Event::Sockets(Ok((3, 4))));
    run.step(Event::Child(Ok(12)));
    run.step(Event::Waited(false));
    assert_eq!(run.stage(), Stage::Finished(Err(Errcode::ContainerError(1))));
}

#[test]
fn api_answers() {
    let api = RustualizeApi::default();
    assert_eq!(api.start_response(&Ok(())).code, "Exit without any error, returning 0");
    assert_eq!(
        api.start_response(&Err(Errcode::MountsError(0))).code,
        "Error on exit: \n\t{} \n\tReturning {retcode not found}"
    );
}
