//! The host's Windows Service boundary: service status reports, service
//! errors, the install plan, the control policy and the manager used where
//! no service backend is available.

use vstd::prelude::*;

use crate::text::{concat2, concat3, decimal, decimal_string, owned};

verus! {

/// Name the host service is registered under.
pub const SERVICE_NAME: &'static str = "wincast-host";
/// Name the host service is shown under.
pub const SERVICE_DISPLAY_NAME: &'static str = "WinCast Host Service";

/// Windows service state codes.
pub const SERVICE_STOPPED: u32 = 1;
pub const SERVICE_START_PENDING: u32 = 2;
pub const SERVICE_STOP_PENDING: u32 = 3;
pub const SERVICE_RUNNING: u32 = 4;
pub const SERVICE_CONTINUE_PENDING: u32 = 5;
pub const SERVICE_PAUSE_PENDING: u32 = 6;
pub const SERVICE_PAUSED: u32 = 7;
/// Flag of the accepted-controls mask meaning that the service can be stopped.
pub const SERVICE_ACCEPT_STOP: u32 = 1;
/// Windows service control codes.
pub const SERVICE_CONTROL_STOP: u32 = 1;
pub const SERVICE_CONTROL_INTERROGATE: u32 = 4;

/// Why service management is off in this release.
pub open spec fn stable_service_boundary_text() -> Seq<char> {
    "当前稳定版仅支持前台 run 模式，Service 管理未启用"@
}

/// Why service management is off in this release.
pub fn stable_service_boundary() -> (res: &'static str)
    ensures
        res@ == stable_service_boundary_text(),
{
    "当前稳定版仅支持前台 run 模式，Service 管理未启用"
}

/// State of an installed service, as the service manager reports it.
#[derive(Debug, Clone, Copy, PartialEq, Eq, Structural)]
pub enum ServiceRunState {
    Stopped,
    StartPending,
    StopPending,
    Running,
    ContinuePending,
    PausePending,
    Paused,
    Unknown(u32),
}

/// The label of a service state in status messages.
pub open spec fn run_state_label(state: ServiceRunState) -> Seq<char> {
    match state {
        ServiceRunState::Stopped => "stopped"@,
        ServiceRunState::StartPending => "start_pending"@,
        ServiceRunState::StopPending => "stop_pending"@,
        ServiceRunState::Running => "running"@,
        ServiceRunState::ContinuePending => "continue_pending"@,
        ServiceRunState::PausePending => "pause_pending"@,
        ServiceRunState::Paused => "paused"@,
        ServiceRunState::Unknown(value) => "unknown("@ + decimal(value as nat) + ")"@,
    }
}

/// The state a Windows state code stands for.
pub open spec fn run_state_of_code(code: u32) -> ServiceRunState {
    if code == SERVICE_STOPPED {
        ServiceRunState::Stopped
    } else if code == SERVICE_START_PENDING {
        ServiceRunState::StartPending
    } else if code == SERVICE_STOP_PENDING {
        ServiceRunState::StopPending
    } else if code == SERVICE_RUNNING {
        ServiceRunState::Running
    } else if code == SERVICE_CONTINUE_PENDING {
        ServiceRunState::ContinuePending
    } else if code == SERVICE_PAUSE_PENDING {
        ServiceRunState::PausePending
    } else if code == SERVICE_PAUSED {
        ServiceRunState::Paused
    } else {
        ServiceRunState::Unknown(code)
    }
}

impl ServiceRunState {
    /// The state a Windows state code stands for; other codes are kept as unknown.
    pub fn from_code(code: u32) -> (res: Self)
        ensures
            res == run_state_of_code(code),
    {
        if code == SERVICE_STOPPED {
            ServiceRunState::Stopped
        } else if code == SERVICE_START_PENDING {
            ServiceRunState::StartPending
        } else if code == SERVICE_STOP_PENDING {
            ServiceRunState::StopPending
        } else if code == SERVICE_RUNNING {
            ServiceRunState::Running
        } else if code == SERVICE_CONTINUE_PENDING {
            ServiceRunState::ContinuePending
        } else if code == SERVICE_PAUSE_PENDING {
            ServiceRunState::PausePending
        } else if code == SERVICE_PAUSED {
            ServiceRunState::Paused
        } else {
            ServiceRunState::Unknown(code)
        }
    }

    /// The label of the state in status messages.
    pub fn label(self) -> (res: String)
        ensures
            res@ == run_state_label(self),
    {
        match self {
            ServiceRunState::Stopped => owned("stopped"),
            ServiceRunState::StartPending => owned("start_pending"),
            ServiceRunState::StopPending => owned("stop_pending"),
            ServiceRunState::Running => owned("running"),
            ServiceRunState::ContinuePending => owned("continue_pending"),
            ServiceRunState::PausePending => owned("pause_pending"),
            ServiceRunState::Paused => owned("paused"),
            ServiceRunState::Unknown(value) => {
                let digits = decimal_string(value as u64);
                concat3("unknown(", digits.as_str(), ")")
            },
        }
    }
}

/// Runtime status of an installed service.
#[derive(Debug, Clone, Copy, PartialEq, Eq, Structural)]
pub struct ServiceRuntimeStatus {
    pub state: ServiceRunState,
    pub accepts_stop: bool,
    pub process_id: Option<u32>,
}

/// The status message of an installed service.
pub open spec fn runtime_status_text(s: ServiceRuntimeStatus) -> Seq<char> {
    "Windows Service 状态：已安装，当前状态 "@ + run_state_label(s.state) + "，"@ + (if s.accepts_stop {
        "可响应 stop"@
    } else {
        "不可响应 stop"@
    }) + "，"@ + match s.process_id {
        Some(pid) => "PID "@ + decimal(pid as nat),
        None => "PID 未知"@,
    } + "。"@
}

impl ServiceRuntimeStatus {
    /// The status message of the installed service.
    pub fn message(self) -> (res: String)
        ensures
            res@ == runtime_status_text(self),
    {
        let label = self.state.label();
        let mut res = concat2("Windows Service 状态：已安装，当前状态 ", label.as_str());
        res.append("，");
        if self.accepts_stop {
            res.append("可响应 stop");
        } else {
            res.append("不可响应 stop");
        }
        res.append("，");
        match self.process_id {
            Some(pid) => {
                let digits = decimal_string(pid as u64);
                res.append("PID ");
                res.append(digits.as_str());
            },
            None => {
                res.append("PID 未知");
            },
        }
        res.append("。");
        res
    }
}

/// What is known of the host service.
#[derive(Debug, Clone, Copy, PartialEq, Eq, Structural)]
pub enum ServiceStatus {
    /// No service backend is available, so nothing was queried.
    PendingImplementation,
    /// The service is installed and reported this status.
    Installed(ServiceRuntimeStatus),
}

/// The user-facing status message.
pub open spec fn service_status_text(s: ServiceStatus) -> Seq<char> {
    match s {
        ServiceStatus::PendingImplementation => "Windows Service 状态："@
            + stable_service_boundary_text() + "；未安装，未执行真实系统服务状态查询。"@,
        ServiceStatus::Installed(status) => runtime_status_text(status),
    }
}

impl ServiceStatus {
    /// The status of an installed service from the fields Windows reports:
    /// the state code, the accepted-controls mask and the process id (zero
    /// when there is no process).
    pub fn from_process_status(current_state: u32, controls_accepted: u32, process_id: u32) -> (res:
        Self)
        ensures
            res == ServiceStatus::Installed(
                ServiceRuntimeStatus {
                    state: run_state_of_code(current_state),
                    accepts_stop: controls_accepted & SERVICE_ACCEPT_STOP != 0,
                    process_id: if process_id != 0 {
                        Some(process_id)
                    } else {
                        None
                    },
                },
            ),
    {
        ServiceStatus::Installed(
            ServiceRuntimeStatus {
                state: ServiceRunState::from_code(current_state),
                accepts_stop: controls_accepted & SERVICE_ACCEPT_STOP != 0,
                process_id: if process_id != 0 {
                    Some(process_id)
                } else {
                    None
                },
            },
        )
    }

    /// The user-facing status message.
    pub fn message(self) -> (res: String)
        ensures
            res@ == service_status_text(self),
    {
        match self {
            ServiceStatus::PendingImplementation => {
                let mut res = concat2("Windows Service 状态：", stable_service_boundary());
                res.append("；未安装，未执行真实系统服务状态查询。");
                res
            },
            ServiceStatus::Installed(status) => status.message(),
        }
    }
}

/// Why a service operation fails.
#[derive(Debug, Clone, PartialEq, Eq)]
pub enum ServiceError {
    /// Service management is off in this release; the operation was not attempted.
    PendingImplementation(&'static str),
    /// Services exist only on Windows; the operation was not attempted.
    UnsupportedPlatform(&'static str),
    /// The system refused the operation.
    SystemError(String),
}

/// The user-facing description of a service error.
pub open spec fn service_error_text(e: ServiceError) -> Seq<char> {
    match e {
        ServiceError::PendingImplementation(op) => "Windows Service "@ + op@ + "不可用："@
            + stable_service_boundary_text() + "；未执行真实系统服务操作。"@,
        ServiceError::UnsupportedPlatform(op) => "Windows Service "@ + op@
            + "仅支持 Windows 平台，当前平台未执行真实系统服务操作。"@,
        ServiceError::SystemError(message) => "Windows Service 系统错误："@ + message@,
    }
}

impl ServiceError {
    /// A system error with the system's description.
    pub fn system_error(message: &str) -> (res: Self)
        ensures
            res matches ServiceError::SystemError(m) && m@ == message@,
    {
        ServiceError::SystemError(owned(message))
    }

    /// The user-facing description of the error.
    pub fn message(&self) -> (res: String)
        ensures
            res@ == service_error_text(*self),
    {
        match self {
            ServiceError::PendingImplementation(op) => {
                let mut res = concat3("Windows Service ", op, "不可用：");
                res.append(stable_service_boundary());
                res.append("；未执行真实系统服务操作。");
                res
            },
            ServiceError::UnsupportedPlatform(op) => concat3(
                "Windows Service ",
                op,
                "仅支持 Windows 平台，当前平台未执行真实系统服务操作。",
            ),
            ServiceError::SystemError(message) => concat2("Windows Service 系统错误：", message.as_str()),
        }
    }
}

/// How the host service is to be registered.
#[derive(Debug, Clone, PartialEq, Eq)]
pub struct ServiceInstallPlan {
    pub name: &'static str,
    pub display_name: &'static str,
    pub executable_path: String,
    pub launch_arguments: Vec<&'static str>,
}

impl ServiceInstallPlan {
    /// The plan for the host executable at `executable_path`: registered
    /// under the host's names and started as `service run`.
    pub fn for_executable(executable_path: String) -> (res: Self)
        ensures
            res.name@ == SERVICE_NAME@,
            res.display_name@ == SERVICE_DISPLAY_NAME@,
            res.executable_path@ == executable_path@,
            res.launch_arguments@.len() == 2,
            res.launch_arguments@[0]@ == "service"@,
            res.launch_arguments@[1]@ == "run"@,
    {
        let mut launch_arguments: Vec<&'static str> = Vec::new();
        launch_arguments.push("service");
        launch_arguments.push("run");
        ServiceInstallPlan {
            name: SERVICE_NAME,
            display_name: SERVICE_DISPLAY_NAME,
            executable_path,
            launch_arguments,
        }
    }

    /// The command line the service manager runs: the quoted executable
    /// path, then each argument after a space.
    pub fn binary_path_name(&self) -> (res: String)
        ensures
            res@ == "\""@ + self.executable_path@ + "\""@ + args_text(
                self.launch_arguments@.map_values(|a: &'static str| a@),
            ),
    {
        let mut res = concat3("\"", self.executable_path.as_str(), "\"");
        let ghost args = self.launch_arguments@.map_values(|a: &'static str| a@);
        let ghost prefix = res@;
        let mut i: usize = 0;
        while i < self.launch_arguments.len()
            invariant
                i <= self.launch_arguments@.len(),
                args == self.launch_arguments@.map_values(|a: &'static str| a@),
                res@ == prefix + args_text(args.take(i as int)),
            decreases self.launch_arguments.len() - i,
        {
            res.append(" ");
            res.append(self.launch_arguments[i]);
            proof {
                assert(args.take(i + 1).drop_last() =~= args.take(i as int));
            }
            i = i + 1;
        }
        assert(args.take(self.launch_arguments.len() as int) =~= args);
        res
    }
}

/// Each argument preceded by a space.
pub open spec fn args_text(args: Seq<Seq<char>>) -> Seq<char>
    decreases args.len(),
{
    if args.len() == 0 {
        Seq::empty()
    } else {
        args_text(args.drop_last()) + " "@ + args.last()
    }
}

/// A control request the service manager sends to the service.
#[derive(Debug, Clone, Copy, PartialEq, Eq, Structural)]
pub enum ServiceControlEvent {
    Stop,
    Interrogate,
    Unsupported,
}

impl ServiceControlEvent {
    /// The request a Windows control code stands for.
    pub fn from_code(control: u32) -> (res: Self)
        ensures
            control == SERVICE_CONTROL_STOP ==> res == ServiceControlEvent::Stop,
            control == SERVICE_CONTROL_INTERROGATE ==> res == ServiceControlEvent::Interrogate,
            control != SERVICE_CONTROL_STOP && control != SERVICE_CONTROL_INTERROGATE ==> res
                == ServiceControlEvent::Unsupported,
    {
        if control == SERVICE_CONTROL_STOP {
            ServiceControlEvent::Stop
        } else if control == SERVICE_CONTROL_INTERROGATE {
            ServiceControlEvent::Interrogate
        } else {
            ServiceControlEvent::Unsupported
        }
    }
}

/// How the service answers a control request.
#[derive(Debug, Clone, Copy, PartialEq, Eq, Structural)]
pub enum ServiceControlOutcome {
    Stop,
    Continue,
    NotImplemented,
}

/// The service's control policy: stop on a stop request, keep running on an
/// interrogation, and report anything else as not implemented.
pub fn handle_service_control(event: ServiceControlEvent) -> (res: ServiceControlOutcome)
    ensures
        res == match event {
            ServiceControlEvent::Stop => ServiceControlOutcome::Stop,
            ServiceControlEvent::Interrogate => ServiceControlOutcome::Continue,
            ServiceControlEvent::Unsupported => ServiceControlOutcome::NotImplemented,
        },
{
    match event {
        ServiceControlEvent::Stop => ServiceControlOutcome::Stop,
        ServiceControlEvent::Interrogate => ServiceControlOutcome::Continue,
        ServiceControlEvent::Unsupported => ServiceControlOutcome::NotImplemented,
    }
}

/// The service management operations; each reports a user-facing message.
/// Each manager states, through `command_outcome` and `status_outcome`,
/// which answers it gives in which state and what state it is left in.
pub trait ServiceManager: Sized {
    /// Whether `res` is an answer the manager in this state gives to the
    /// operation `command` (one of install, uninstall, start, stop), leaving
    /// it as `after`. A manager that does not say admits every answer.
    open spec fn command_outcome(&self, command: ServiceCommand, res: Result<String, String>, after: Self) -> bool {
        true
    }

    /// Whether `res` is an answer the manager in this state gives to a status
    /// query, leaving it as `after`. A manager that does not say admits every
    /// answer.
    open spec fn status_outcome(&self, res: Result<ServiceStatus, String>, after: Self) -> bool {
        true
    }

    fn install(&mut self) -> (res: Result<String, String>)
        ensures
            old(self).command_outcome(ServiceCommand::Install, res, *final(self)),
    ;

    fn uninstall(&mut self) -> (res: Result<String, String>)
        ensures
            old(self).command_outcome(ServiceCommand::Uninstall, res, *final(self)),
    ;

    fn start(&mut self) -> (res: Result<String, String>)
        ensures
            old(self).command_outcome(ServiceCommand::Start, res, *final(self)),
    ;

    fn stop(&mut self) -> (res: Result<String, String>)
        ensures
            old(self).command_outcome(ServiceCommand::Stop, res, *final(self)),
    ;

    fn status(&mut self) -> (res: Result<ServiceStatus, String>)
        ensures
            old(self).status_outcome(res, *final(self)),
    ;
}

/// The name of a service operation in messages.
pub open spec fn operation_name(command: ServiceCommand) -> &'static str {
    match command {
        ServiceCommand::Install => "安装",
        ServiceCommand::Uninstall => "卸载",
        ServiceCommand::Start => "启动",
        ServiceCommand::Stop => "停止",
        ServiceCommand::Status => "查询",
    }
}

/// The manager used where no service backend exists: every operation is
/// refused as pending, and the status says nothing is installed.
#[derive(Debug, Default)]
pub struct PendingServiceManager;

impl PendingServiceManager {
    /// The error for an operation that is pending.
    pub fn pending_operation_error(operation: &'static str) -> (res: ServiceError)
        ensures
            res == ServiceError::PendingImplementation(operation),
    {
        ServiceError::PendingImplementation(operation)
    }

    /// The failed result of an operation that is pending.
    pub fn pending_operation_result(operation: &'static str) -> (res: Result<String, String>)
        ensures
            res matches Err(m) && m@ == service_error_text(ServiceError::PendingImplementation(operation)),
    {
        Err(Self::pending_operation_error(operation).message())
    }
}

impl ServiceManager for PendingServiceManager {
    /// Every operation is refused as pending.
    open spec fn command_outcome(&self, command: ServiceCommand, res: Result<String, String>, after: Self) -> bool {
        res matches Err(m) && m@ == service_error_text(
            ServiceError::PendingImplementation(operation_name(command)),
        )
    }

    /// The status always says that nothing is installed.
    open spec fn status_outcome(&self, res: Result<ServiceStatus, String>, after: Self) -> bool {
        res == Ok::<ServiceStatus, String>(ServiceStatus::PendingImplementation)
    }

    fn install(&mut self) -> (res: Result<String, String>)
        ensures
            res matches Err(m) && m@ == service_error_text(ServiceError::PendingImplementation("安装")),
    {
        Self::pending_operation_result("安装")
    }

    fn uninstall(&mut self) -> (res: Result<String, String>)
        ensures
            res matches Err(m) && m@ == service_error_text(ServiceError::PendingImplementation("卸载")),
    {
        Self::pending_operation_result("卸载")
    }

    fn start(&mut self) -> (res: Result<String, String>)
        ensures
            res matches Err(m) && m@ == service_error_text(ServiceError::PendingImplementation("启动")),
    {
        Self::pending_operation_result("启动")
    }

    fn stop(&mut self) -> (res: Result<String, String>)
        ensures
            res matches Err(m) && m@ == service_error_text(ServiceError::PendingImplementation("停止")),
    {
        Self::pending_operation_result("停止")
    }

    fn status(&mut self) -> (res: Result<ServiceStatus, String>)
        ensures
            res == Ok::<ServiceStatus, String>(ServiceStatus::PendingImplementation),
    {
        Ok(ServiceStatus::PendingImplementation)
    }
}

/// Running as a service needs the Windows service dispatcher, which this
/// build does not have.
pub fn run_service_dispatcher() -> (res: Result<String, String>)
    ensures
        res matches Err(m) && m@ == service_error_text(ServiceError::UnsupportedPlatform("运行")),
{
    Err(ServiceError::UnsupportedPlatform("运行").message())
}

/// The service subcommands of the host executable.
#[derive(Debug, Clone, Copy, PartialEq, Eq, Structural)]
pub enum ServiceCommand {
    Install,
    Uninstall,
    Start,
    Stop,
    Status,
}

/// Whether `res` reports the status query answer `status`: the status's
/// message, or the query's error.
pub open spec fn is_status_report(status: Result<ServiceStatus, String>, res: Result<String, String>) -> bool {
    match status {
        Ok(s) => res matches Ok(m) && m@ == service_status_text(s),
        Err(e) => res == Err::<String, String>(e),
    }
}

/// The report of a status query: the status's message, or the query's error.
pub fn service_status_report(status: Result<ServiceStatus, String>) -> (res: Result<String, String>)
    ensures
        is_status_report(status, res),
{
    match status {
        Ok(s) => Ok(s.message()),
        Err(e) => Err(e),
    }
}

/// Runs a service subcommand through `manager`: an operation gives the
/// manager's answer to it; a status query gives the report of the manager's
/// answer.
pub fn execute_service_command<M: ServiceManager>(command: ServiceCommand, manager: &mut M) -> (res:
    Result<String, String>)
    ensures
        command != ServiceCommand::Status ==> old(manager).command_outcome(command, res, *final(manager)),
        command == ServiceCommand::Status ==> exists|status: Result<ServiceStatus, String>|
            #[trigger] old(manager).status_outcome(status, *final(manager)) && is_status_report(
                status,
                res,
            ),
{
    match command {
        ServiceCommand::Install => manager.install(),
        ServiceCommand::Uninstall => manager.uninstall(),
        ServiceCommand::Start => manager.start(),
        ServiceCommand::Stop => manager.stop(),
        ServiceCommand::Status => {
            let status = manager.status();
            service_status_report(status)
        },
    }
}

} // verus!
