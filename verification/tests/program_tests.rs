use wincast::program::{
    launch_with_runner, LaunchError, LaunchRequest, ProgramConfig, ProgramRunner, StartedProgram,
    StdProgramRunner,
};

fn program_config() -> ProgramConfig {
    ProgramConfig {
        path: "C:\\Tools\\Demo App\\demo.exe".to_owned(),
        args: vec!["--profile".to_owned(), "default".to_owned()],
        work_dir: "C:\\Tools\\Demo App".to_owned(),
    }
}

#[test]
fn builds_launch_request_from_host_config() {
    let request = LaunchRequest::from_program_config(&program_config());

    assert_eq!(request.program, "C:\\Tools\\Demo App\\demo.exe");
    assert_eq!(request.args, ["--profile", "default"]);
    assert_eq!(request.work_dir, "C:\\Tools\\Demo App");
}

#[derive(Default)]
struct RecordingRunner {
    request: Option<LaunchRequest>,
}

impl ProgramRunner for RecordingRunner {
    fn launch(&mut self, request: &LaunchRequest) -> Result<StartedProgram, LaunchError> {
        self.request = Some(request.clone());
        Ok(StartedProgram::from_process_id(4242))
    }
}

struct UnsupportedPlatformRunner;

impl ProgramRunner for UnsupportedPlatformRunner {
    fn launch(&mut self, _request: &LaunchRequest) -> Result<StartedProgram, LaunchError> {
        Err(LaunchError::unsupported_platform())
    }
}

#[test]
fn injectable_runner_receives_configured_launch_request() {
    let mut runner = RecordingRunner::default();
    let started = launch_with_runner(&program_config(), &mut runner).expect("program should start");

    assert_eq!(started.process_id, 4242);
    assert_eq!(
        runner.request.expect("request should be recorded"),
        LaunchRequest {
            program: "C:\\Tools\\Demo App\\demo.exe".to_owned(),
            args: vec!["--profile".to_owned(), "default".to_owned()],
            work_dir: "C:\\Tools\\Demo App".to_owned(),
        }
    );
}

#[test]
fn non_windows_runner_returns_clear_chinese_error() {
    let mut runner = UnsupportedPlatformRunner;
    let error = launch_with_runner(&program_config(), &mut runner).expect_err("platform should fail");

    assert_eq!(
        error.message(),
        "当前平台不支持宿主端程序启动：仅 Windows 支持启动配置程序"
    );
}

#[test]
fn std_runner_refuses_launch_and_cleans_up_nothing() {
    let mut runner = StdProgramRunner;
    let error = launch_with_runner(&program_config(), &mut runner).expect_err("no launcher here");
    assert_eq!(error, LaunchError::unsupported_platform());
    let mut started = StartedProgram::from_process_id(1);
    assert!(runner.cleanup(&mut started).is_ok());
    assert_eq!(started.is_running(), Ok(true));
    assert_eq!(
        LaunchError::from_io("启动宿主端配置程序失败", "not found").message(),
        "启动宿主端配置程序失败: not found"
    );
}
