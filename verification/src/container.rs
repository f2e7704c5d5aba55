use vstd::prelude::*;

use crate::cli::MyOptions;
use crate::config::{is_runnable_command, words, ContainerOpts};
use crate::errors::Errcode;
use crate::hostname::{generate_hostname, is_generated_hostname};
use crate::mounts::clean_mounts;

verus! {

/// A container: its configuration, its socket pair, and its child process
/// once there is one.
#[derive(Debug)]
pub struct Container {
    pub config: ContainerOpts,
    pub sockets: (i32, i32),
    pub child_pid: Option<i32>,
}

/// What the container made of `args`, `sockets` and `hostname` holds: the
/// words of the command, the first of them as the program, the user id, the
/// mount directory, the second socket, the hostname and the socket pair; no
/// child yet.
pub open spec fn built_from(c: Container, args: MyOptions, sockets: (i32, i32), hostname: String) -> bool {
    &&& c.config.argv.deep_view() == words(args.command@)
    &&& c.config.path@ == words(args.command@)[0]
    &&& c.config.uid == args.uid
    &&& c.config.mount_dir == args.mount_dir
    &&& c.config.fd == sockets.1
    &&& c.config.hostname == hostname
    &&& c.sockets == sockets
    &&& c.child_pid is None
}

impl Container {
    /// Builds the container that `args` asks for, given the socket pair that
    /// was asked for and the hostname that was drawn; an error in making the
    /// sockets, and then one in drawing the hostname, is handed on.
    pub fn new(
        args: MyOptions,
        sockets: Result<(i32, i32), Errcode>,
        hostname: Result<String, Errcode>,
    ) -> (r: Result<Container, Errcode>)
        requires
            is_runnable_command(args.command@),
        ensures
            sockets matches Err(e) ==> r == Err::<Container, Errcode>(e),
            sockets is Ok ==> (hostname matches Err(e) ==> r == Err::<Container, Errcode>(e)),
            sockets matches Ok(pair) ==> (hostname matches Ok(h) ==> (r matches Ok(c)
                && built_from(c, args, pair, h))),
    {
        let (config, sockets) = match ContainerOpts::new(
            args.command,
            args.uid,
            args.mount_dir,
            sockets,
            hostname,
        ) {
            Ok(built) => built,
            Err(e) => {
                return Err(e);
            },
        };
        Ok(Container { config, sockets, child_pid: None })
    }

    /// Records the child process, given the outcome of starting it; an
    /// error in starting it is handed on and changes nothing.
    pub fn create(&mut self, child: Result<i32, Errcode>) -> (r: Result<(), Errcode>)
        ensures
            final(self).config == old(self).config,
            final(self).sockets == old(self).sockets,
            child matches Ok(pid) ==> r == Ok::<(), Errcode>(()) && final(self).child_pid == Some(
                pid,
            ),
            child matches Err(e) ==> r == Err::<(), Errcode>(e) && final(self).child_pid == old(
                self,
            ).child_pid,
    {
        match child {
            Ok(pid) => {
                self.child_pid = Some(pid);
                Ok(())
            },
            Err(e) => Err(e),
        }
    }

    /// Cleans up after the container: its mounts leave nothing to undo.
    pub fn clean_exit(&mut self) -> (r: Result<(), Errcode>)
        ensures
            r == Ok::<(), Errcode>(()),
            *final(self) == *old(self),
    {
        clean_mounts(&self.config.mount_dir)
    }
}

/// The outcome of waiting for the child `pid`, given whether the wait
/// succeeded: with no child there is nothing to wait for.
pub fn wait_child(pid: Option<i32>, waited: bool) -> (r: Result<(), Errcode>)
    ensures
        r == (if pid is Some && !waited {
            Err::<(), Errcode>(Errcode::ContainerError(1))
        } else {
            Ok(())
        }),
{
    if let Some(_) = pid {
        if !waited {
            return Err(Errcode::ContainerError(1));
        }
    }
    Ok(())
}

/// Where the life of a container stands.
#[derive(Debug, Clone, Copy, PartialEq, Eq)]
pub enum Stage {
    /// The socket pair must be made.
    OpenSockets,
    /// The child process must be started from the configuration.
    SpawnChild,
    /// The child process `pid` must be waited for.
    WaitChild(i32),
    /// The run is over with this outcome.
    Finished(Result<(), Errcode>),
}

/// What the program reports after doing what a stage asks.
#[derive(Debug, Clone, Copy)]
pub enum Event {
    /// The socket pair, or the error in making it.
    Sockets(Result<(i32, i32), Errcode>),
    /// The child's process id, or the error in starting it.
    Child(Result<i32, Errcode>),
    /// Whether waiting for the child succeeded.
    Waited(bool),
}

/// The stage that follows `st` on `ev`: a failure to make the sockets ends
/// the run with that error; a failure to start the child ends it, after
/// cleaning up, with that error; a failed wait ends it with a container
/// error; a finished wait ends it, after cleaning up, with success. An event
/// that the stage does not ask for changes nothing.
pub open spec fn next_stage(st: Stage, ev: Event) -> Stage {
    match (st, ev) {
        (Stage::OpenSockets, Event::Sockets(Err(e))) => Stage::Finished(Err(e)),
        (Stage::OpenSockets, Event::Sockets(Ok(_))) => Stage::SpawnChild,
        (Stage::SpawnChild, Event::Child(Err(e))) => Stage::Finished(Err(e)),
        (Stage::SpawnChild, Event::Child(Ok(pid))) => Stage::WaitChild(pid),
        (Stage::WaitChild(_), Event::Waited(false)) => Stage::Finished(
            Err(Errcode::ContainerError(1)),
        ),
        (Stage::WaitChild(_), Event::Waited(true)) => Stage::Finished(Ok(())),
        _ => st,
    }
}

/// The outcome of a whole run, from what each outside step gave.
pub open spec fn start_outcome(
    sockets: Result<(i32, i32), Errcode>,
    child: Result<i32, Errcode>,
    waited: bool,
) -> Result<(), Errcode> {
    match sockets {
        Err(e) => Err(e),
        Ok(_) => match child {
            Err(e) => Err(e),
            Ok(_) => if waited {
                Ok(())
            } else {
                Err(Errcode::ContainerError(1))
            },
        },
    }
}

/// The run of one container, from its command line to its outcome.
pub struct StartRun {
    args: Option<MyOptions>,
    container: Option<Container>,
    stage: Stage,
}

impl StartRun {
    #[verifier::type_invariant]
    spec fn well_formed(self) -> bool {
        &&& self.stage is OpenSockets ==> (self.args matches Some(a) && is_runnable_command(
            a.command@,
        ) && self.container is None)
        &&& self.stage is SpawnChild ==> self.container is Some
        &&& self.stage matches Stage::WaitChild(pid) ==> (self.container matches Some(c)
            && c.child_pid == Some(pid))
    }

    pub closed spec fn stage_of(&self) -> Stage {
        self.stage
    }

    pub closed spec fn args_of(&self) -> Option<MyOptions> {
        self.args
    }

    pub closed spec fn container_of(&self) -> Option<Container> {
        self.container
    }

    /// The stage that the run stands at.
    pub fn stage(&self) -> (s: Stage)
        ensures
            s == self.stage_of(),
    {
        self.stage
    }

    /// The configuration of the container, once it is built.
    pub fn config(&self) -> (c: Option<&ContainerOpts>)
        ensures
            self.stage_of() is SpawnChild ==> c is Some,
            c matches Some(cfg) ==> (self.container_of() matches Some(ct) && *cfg == ct.config),
    {
        proof {
            use_type_invariant(self);
        }
        match &self.container {
            Some(c) => Some(&c.config),
            None => None,
        }
    }

    /// Moves the run on with what the program reports.
    pub fn step(&mut self, ev: Event)
        ensures
            final(self).stage_of() == next_stage(old(self).stage_of(), ev),
            old(self).stage_of() is OpenSockets ==> (ev matches Event::Sockets(Ok(pair)) ==> (
            old(self).args_of() matches Some(a) && final(self).container_of() matches Some(c)
                && built_from(c, a, pair, c.config.hostname) && is_generated_hostname(
                c.config.hostname@,
            ))),
            old(self).container_of() matches Some(c0) ==> (final(self).container_of() matches Some(
                c1,
            ) && c1.config == c0.config && c1.sockets == c0.sockets),
            old(self).stage_of() is SpawnChild ==> (ev matches Event::Child(Ok(pid)) ==> (
            final(self).container_of() matches Some(c) && c.child_pid == Some(pid))),
    {
        let mut cur = StartRun { args: None, container: None, stage: Stage::Finished(Ok(())) };
        std::mem::swap(self, &mut cur);
        proof {
            use_type_invariant(&cur);
        }
        let StartRun { args, container, stage } = cur;
        let next = match (stage, ev) {
            (Stage::OpenSockets, Event::Sockets(sockets)) => match args {
                Some(a) => match sockets {
                    Ok(pair) => match Container::new(a, Ok(pair), generate_hostname()) {
                        Ok(c) => StartRun {
                            args: None,
                            container: Some(c),
                            stage: Stage::SpawnChild,
                        },
                        Err(e) => StartRun {
                            args: None,
                            container: None,
                            stage: Stage::Finished(Err(e)),
                        },
                    },
                    Err(e) => StartRun { args: None, container: None, stage: Stage::Finished(Err(e)) },
                },
                None => StartRun { args, container, stage },
            },
            (Stage::SpawnChild, Event::Child(child)) => match container {
                Some(mut c) => {
                    let st = match c.create(child) {
                        Ok(()) => match c.child_pid {
                            Some(pid) => Stage::WaitChild(pid),
                            None => Stage::Finished(c.clean_exit()),
                        },
                        Err(e) => match c.clean_exit() {
                            Ok(()) => Stage::Finished(Err(e)),
                            Err(clean_error) => Stage::Finished(Err(clean_error)),
                        },
                    };
                    StartRun { args, container: Some(c), stage: st }
                },
                None => StartRun { args, container, stage },
            },
            (Stage::WaitChild(pid), Event::Waited(waited)) => match container {
                Some(mut c) => {
                    let st = match wait_child(c.child_pid, waited) {
                        Ok(()) => Stage::Finished(c.clean_exit()),
                        Err(e) => Stage::Finished(Err(e)),
                    };
                    StartRun { args, container: Some(c), stage: st }
                },
                None => StartRun { args, container, stage },
            },
            _ => StartRun { args, container, stage },
        };
        *self = next;
    }
}

/// Starts the run of the container that `args` asks for: its first stage
/// asks for the socket pair.
pub fn start(args: MyOptions) -> (r: StartRun)
    requires
        is_runnable_command(args.command@),
    ensures
        r.stage_of() is OpenSockets,
        r.args_of() == Some(args),
        r.container_of() is None,
{
    StartRun { args: Some(args), container: None, stage: Stage::OpenSockets }
}

/// However the outside steps turn out, a run that is fed what each stage
/// asks for is over after at most three events, with the outcome of
/// `start_outcome`; once over, it stays over.
pub proof fn lemma_start_outcome(
    sockets: Result<(i32, i32), Errcode>,
    child: Result<i32, Errcode>,
    waited: bool,
    later: Event,
)
    ensures
        ({
            let s1 = next_stage(Stage::OpenSockets, Event::Sockets(sockets));
            let s2 = next_stage(s1, Event::Child(child));
            let s3 = next_stage(s2, Event::Waited(waited));
            &&& s3 == Stage::Finished(start_outcome(sockets, child, waited))
            &&& next_stage(s3, later) == s3
        }),
{
}

} // verus!
