//! Launching the program the host streams: the launch request built from
//! the configuration, the launch errors, and the runner interface.

use vstd::prelude::*;

use crate::text::{concat3, owned};

verus! {

/// The program part of the host configuration.
#[derive(Debug, Clone, PartialEq, Eq)]
pub struct ProgramConfig {
    pub path: String,
    pub args: Vec<String>,
    pub work_dir: String,
}

/// What to start: the executable, its arguments and its working directory.
#[derive(Debug, Clone, PartialEq, Eq)]
pub struct LaunchRequest {
    pub program: String,
    pub args: Vec<String>,
    pub work_dir: String,
}

/// The views of a list of strings.
pub open spec fn strings_view(v: Seq<String>) -> Seq<Seq<char>> {
    v.map_values(|s: String| s@)
}

fn copy_strings(v: &Vec<String>) -> (res: Vec<String>)
    ensures
        strings_view(res@) == strings_view(v@),
{
    let mut res: Vec<String> = Vec::new();
    let mut i: usize = 0;
    while i < v.len()
        invariant
            i <= v@.len(),
            strings_view(res@) == strings_view(v@).take(i as int),
        decreases v.len() - i,
    {
        let s = v[i].clone();
        assert(s@ == v@[i as int]@);
        let ghost before = res@;
        res.push(s);
        proof {
            assert(res@ == before.push(s));
            assert(strings_view(res@) =~= strings_view(before).push(s@));
            assert(strings_view(v@).take(i + 1) =~= strings_view(v@).take(i as int).push(v@[i as int]@));
        }
        i = i + 1;
    }
    assert(strings_view(v@).take(v@.len() as int) =~= strings_view(v@));
    res
}

impl LaunchRequest {
    /// The request for the configured program: its path, arguments and
    /// working directory, unchanged.
    pub fn from_program_config(config: &ProgramConfig) -> (res: Self)
        ensures
            res.program@ == config.path@,
            strings_view(res.args@) == strings_view(config.args@),
            res.work_dir@ == config.work_dir@,
    {
        LaunchRequest {
            program: owned(config.path.as_str()),
            args: copy_strings(&config.args),
            work_dir: owned(config.work_dir.as_str()),
        }
    }
}

/// A program the host started, by process id.
#[derive(Debug, Clone, Copy, PartialEq, Eq, Structural)]
pub struct StartedProgram {
    pub process_id: u32,
}

impl StartedProgram {
    /// A started program with the given process id.
    pub fn from_process_id(process_id: u32) -> (res: Self)
        ensures
            res.process_id == process_id,
    {
        StartedProgram { process_id }
    }

    /// Whether the program still runs. Without a way to watch processes
    /// the host treats a started program as running.
    pub fn is_running(&mut self) -> (res: Result<bool, LaunchError>)
        ensures
            res matches Ok(r) && r,
            *final(self) == *old(self),
    {
        Ok(true)
    }
}

/// Why the program could not be launched or cleaned up.
#[derive(Debug, Clone, PartialEq, Eq)]
pub struct LaunchError {
    message: String,
}

/// Message of a launch refused on a platform that cannot launch programs.
pub open spec fn launch_unsupported_text() -> Seq<char> {
    "当前平台不支持宿主端程序启动：仅 Windows 支持启动配置程序"@
}

impl LaunchError {
    /// The description carried by the error.
    pub closed spec fn spec_message(&self) -> Seq<char> {
        self.message@
    }

    /// Launching programs is not available on this platform.
    pub fn unsupported_platform() -> (res: Self)
        ensures
            res.spec_message() == launch_unsupported_text(),
    {
        LaunchError { message: owned("当前平台不支持宿主端程序启动：仅 Windows 支持启动配置程序") }
    }

    /// A failed system operation: the action, then the system's description.
    pub fn from_io(action: &str, error: &str) -> (res: Self)
        ensures
            res.spec_message() == action@ + ": "@ + error@,
    {
        LaunchError { message: concat3(action, ": ", error) }
    }

    /// The description of the error.
    pub fn message(&self) -> (res: String)
        ensures
            res@ == self.spec_message(),
    {
        self.message.clone()
    }
}

/// Starts and cleans up the configured program. Each runner states, through
/// `launch_outcome`, which launch results it may give.
pub trait ProgramRunner: Sized {
    /// Whether `res` is a result the runner in this state may give to
    /// `request`, leaving it as `after`. A runner that does not say admits
    /// every result.
    open spec fn launch_outcome(
        &self,
        request: LaunchRequest,
        res: Result<StartedProgram, LaunchError>,
        after: Self,
    ) -> bool {
        true
    }

    fn launch(&mut self, request: &LaunchRequest) -> (res: Result<StartedProgram, LaunchError>)
        ensures
            old(self).launch_outcome(*request, res, *final(self)),
    ;

    /// Cleans up a started program; by default there is nothing to do.
    fn cleanup(&mut self, started: &mut StartedProgram) -> (res: Result<(), LaunchError>)
        default_ensures
            res is Ok,
            *final(self) == *old(self),
            *final(started) == *old(started),
    {
        Ok(())
    }
}

/// The runner of the running platform. Starting processes under a job
/// object needs Windows, which this build does not target, so launches are
/// refused and cleanup has nothing to do.
#[derive(Debug, Default)]
pub struct StdProgramRunner;

impl ProgramRunner for StdProgramRunner {
    /// Every launch is refused as unsupported.
    open spec fn launch_outcome(
        &self,
        request: LaunchRequest,
        res: Result<StartedProgram, LaunchError>,
        after: Self,
    ) -> bool {
        res matches Err(e) && e.spec_message() == launch_unsupported_text()
    }

    fn launch(&mut self, request: &LaunchRequest) -> (res: Result<StartedProgram, LaunchError>)
        ensures
            res matches Err(e) && e.spec_message() == launch_unsupported_text(),
    {
        Err(LaunchError::unsupported_platform())
    }

    fn cleanup(&mut self, started: &mut StartedProgram) -> (res: Result<(), LaunchError>)
        ensures
            res is Ok,
    {
        Ok(())
    }
}

/// Launches the configured program through `runner`: the runner's result
/// for the request built from the configuration.
pub fn launch_with_runner<R: ProgramRunner>(config: &ProgramConfig, runner: &mut R) -> (res: Result<
    StartedProgram,
    LaunchError,
>)
    ensures
        exists|request: LaunchRequest|
            #[trigger] old(runner).launch_outcome(request, res, *final(runner)) && request.program@
                == config.path@ && strings_view(request.args@) == strings_view(config.args@)
                && request.work_dir@ == config.work_dir@,
{
    let request = LaunchRequest::from_program_config(config);
    let res = runner.launch(&request);
    assert(old(runner).launch_outcome(request, res, *runner));
    res
}

} // verus!
