use vstd::prelude::*;

use crate::config::{start_code_of, ServiceConfig};
use crate::error::{classify, win32_code_of, Error, ERROR_SERVICE_DOES_NOT_EXIST};
use crate::status::{status_of, ServiceStatus};

verus! {

/// Where the cached handle to the named service stands.
#[derive(Debug, Clone, Copy, PartialEq, Eq)]
pub enum ServiceHandle<H> {
    /// No handle has been opened yet.
    Unresolved,
    Open(H),
    /// The handle was released after the service was deleted.
    Invalidated,
}

/// An operation on a registered service.
#[derive(Debug, Clone, Copy, PartialEq, Eq, Structural)]
pub enum Operation {
    Uninstall,
    Start,
    Stop,
    Status,
}

/// What a finished operation hands back.
#[derive(Debug, Clone, Copy, PartialEq, Eq, Structural)]
pub enum Outcome {
    Done,
    Reported(ServiceStatus),
}

/// The next thing to do against the platform, or the end of an operation.
#[derive(Debug, PartialEq, Eq)]
pub enum Action<H> {
    /// Check that the executable exists; answered by `PathChecked`.
    CheckPath(String),
    /// Register the named service; answered by `Opened`.
    CreateService { display_name: String, exe_path: String, start_type: u32 },
    /// Attach a description to the service; answered by `Completed`.
    SetDescription(H, String),
    /// Open the named service; answered by `Opened`.
    OpenService,
    /// Mark the service for deletion; answered by `Completed`.
    DeleteService(H),
    /// Ask the service to run, with no arguments; answered by `Completed`.
    StartService(H),
    /// Send the stop control; answered by `Completed`.
    StopService(H),
    /// Read the run-state of the service; answered by `Queried`.
    QueryStatus(H),
    /// Release a service handle; answered by `Closed`.
    CloseService(H),
    /// The operation is over, with this result.
    Finish(Result<Outcome, Error>),
}

/// What the platform answered to an action. Failures carry the raw code.
#[derive(Debug, PartialEq, Eq)]
pub enum Event<H> {
    PathChecked(Result<bool, String>),
    Opened(Result<H, u32>),
    Completed(Result<(), u32>),
    Queried(Result<u32, u32>),
    Closed,
}

/// The kinds of answer, by which actions and events are paired.
#[derive(Debug, Clone, Copy, PartialEq, Eq, Structural)]
pub enum Reply {
    PathCheck,
    Handle,
    Completion,
    Query,
    Release,
    Nothing,
}

/// Where an operation in progress stands.
#[derive(Debug, Clone, PartialEq, Eq)]
pub enum Stage {
    Idle,
    CheckingPath(ServiceConfig),
    /// Registering; holds the description still to attach.
    Creating(String),
    /// A handle opened earlier is being released after a registration.
    ReleasingStale(String),
    Describing,
    Resolving(Operation),
    Controlling(Operation),
    /// The handle of a deleted service is being released.
    Releasing,
}

/// The state of a controller: the registry handle, the service handle
/// and the operation in progress.
pub struct ControllerState<H> {
    pub registry: H,
    pub service: ServiceHandle<H>,
    pub stage: Stage,
}

pub open spec fn reply_to<H>(a: Action<H>) -> Reply {
    match a {
        Action::CheckPath(_) => Reply::PathCheck,
        Action::CreateService { .. } => Reply::Handle,
        Action::OpenService => Reply::Handle,
        Action::SetDescription(..) => Reply::Completion,
        Action::DeleteService(_) => Reply::Completion,
        Action::StartService(_) => Reply::Completion,
        Action::StopService(_) => Reply::Completion,
        Action::QueryStatus(_) => Reply::Query,
        Action::CloseService(_) => Reply::Release,
        Action::Finish(_) => Reply::Nothing,
    }
}

pub open spec fn kind_of<H>(ev: Event<H>) -> Reply {
    match ev {
        Event::PathChecked(_) => Reply::PathCheck,
        Event::Opened(_) => Reply::Handle,
        Event::Completed(_) => Reply::Completion,
        Event::Queried(_) => Reply::Query,
        Event::Closed => Reply::Release,
    }
}

/// The kind of answer that a stage waits for.
pub open spec fn awaited(stage: Stage) -> Reply {
    match stage {
        Stage::Idle => Reply::Nothing,
        Stage::CheckingPath(_) => Reply::PathCheck,
        Stage::Creating(_) => Reply::Handle,
        Stage::ReleasingStale(_) => Reply::Release,
        Stage::Describing => Reply::Completion,
        Stage::Resolving(_) => Reply::Handle,
        Stage::Controlling(op) => if op == Operation::Status {
            Reply::Query
        } else {
            Reply::Completion
        },
        Stage::Releasing => Reply::Release,
    }
}

/// The stage waits for no answer and accepts a new operation.
pub open spec fn is_idle(stage: Stage) -> bool {
    stage is Idle
}

impl<H> ControllerState<H> {
    /// The service handle is open exactly in the stages that act on it, and
    /// absent while it is being resolved.
    pub open spec fn wf(self) -> bool {
        match self.stage {
            Stage::ReleasingStale(_) => self.service is Open,
            Stage::Describing => self.service is Open,
            Stage::Controlling(_) => self.service is Open,
            Stage::Resolving(_) => self.service !is Open,
            Stage::Releasing => self.service is Invalidated,
            _ => true,
        }
    }

    pub open spec fn with_stage(self, stage: Stage) -> ControllerState<H> {
        ControllerState { registry: self.registry, service: self.service, stage }
    }

    pub open spec fn with_service(self, service: ServiceHandle<H>, stage: Stage) -> ControllerState<H> {
        ControllerState { registry: self.registry, service, stage }
    }
}

/// The action that carries out an operation on an open service handle.
pub open spec fn control_action<H>(op: Operation, h: H) -> Action<H> {
    match op {
        Operation::Uninstall => Action::DeleteService(h),
        Operation::Start => Action::StartService(h),
        Operation::Stop => Action::StopService(h),
        Operation::Status => Action::QueryStatus(h),
    }
}

/// Ends the operation in progress with `r`.
pub open spec fn finish<H>(s: ControllerState<H>, r: Result<Outcome, Error>) -> (ControllerState<H>, Action<H>) {
    (s.with_stage(Stage::Idle), Action::Finish(r))
}

/// The result of a platform call that returns nothing on success.
pub open spec fn completion(r: Result<(), u32>) -> Result<Outcome, Error> {
    match r {
        Ok(_) => Ok(Outcome::Done),
        Err(code) => Err(classify(code)),
    }
}

/// After registration: attach a non-empty description to `h`, else finish.
pub open spec fn describe_or_finish<H>(s: ControllerState<H>, h: H, d: String) -> (ControllerState<H>, Action<H>) {
    if d@.len() > 0 {
        (s.with_stage(Stage::Describing), Action::SetDescription(h, d))
    } else {
        finish(s, Ok(Outcome::Done))
    }
}

/// How an installation starts: the executable path is checked before any
/// registry call.
pub open spec fn begin_install_spec<H>(s: ControllerState<H>, config: ServiceConfig) -> (ControllerState<H>, Action<H>) {
    (s.with_stage(Stage::CheckingPath(config)), Action::CheckPath(config.exe_path))
}

/// How an operation on a registered service starts: on the cached handle
/// where one is open, else by opening the service.
pub open spec fn begin_spec<H>(s: ControllerState<H>, op: Operation) -> (ControllerState<H>, Action<H>) {
    match s.service {
        ServiceHandle::Open(h) => (s.with_stage(Stage::Controlling(op)), control_action(op, h)),
        _ => (s.with_stage(Stage::Resolving(op)), Action::OpenService),
    }
}

/// What the controller does on each answer of the platform.
pub open spec fn next_spec<H>(s: ControllerState<H>, ev: Event<H>) -> (ControllerState<H>, Action<H>) {
    match s.stage {
        Stage::CheckingPath(config) => match ev {
            Event::PathChecked(Err(cause)) => finish(s, Err(Error::Io(cause))),
            Event::PathChecked(Ok(false)) => finish(s, Err(Error::InvalidPath(config.exe_path))),
            _ => (
                s.with_stage(Stage::Creating(config.description)),
                Action::CreateService {
                    display_name: config.display_name,
                    exe_path: config.exe_path,
                    start_type: start_code_of(config.start_type),
                },
            ),
        },
        Stage::Creating(d) => match ev {
            Event::Opened(Ok(h)) => match s.service {
                ServiceHandle::Open(stale) => (
                    s.with_service(ServiceHandle::Open(h), Stage::ReleasingStale(d)),
                    Action::CloseService(stale),
                ),
                _ => describe_or_finish(s.with_service(ServiceHandle::Open(h), Stage::Idle), h, d),
            },
            Event::Opened(Err(code)) => finish(s, Err(classify(code))),
            _ => finish(s, Ok(Outcome::Done)),
        },
        Stage::ReleasingStale(d) => describe_or_finish(s, s.service->Open_0, d),
        Stage::Describing => match ev {
            Event::Completed(r) => finish(s, completion(r)),
            _ => finish(s, Ok(Outcome::Done)),
        },
        Stage::Resolving(op) => match ev {
            Event::Opened(Ok(h)) => (
                s.with_service(ServiceHandle::Open(h), Stage::Controlling(op)),
                control_action(op, h),
            ),
            Event::Opened(Err(code)) => if op == Operation::Status {
                finish(s, Ok(Outcome::Reported(ServiceStatus::Stopped)))
            } else {
                finish(s, Err(classify(code)))
            },
            _ => finish(s, Ok(Outcome::Done)),
        },
        Stage::Controlling(op) => match ev {
            Event::Queried(Ok(state)) => finish(s, Ok(Outcome::Reported(status_of(state)))),
            Event::Queried(Err(code)) => finish(s, Err(classify(code))),
            Event::Completed(Ok(_)) => if op == Operation::Uninstall {
                (
                    s.with_service(ServiceHandle::Invalidated, Stage::Releasing),
                    Action::CloseService(s.service->Open_0),
                )
            } else {
                finish(s, Ok(Outcome::Done))
            },
            Event::Completed(Err(code)) => finish(s, Err(classify(code))),
            _ => finish(s, Ok(Outcome::Done)),
        },
        Stage::Releasing => finish(s, Ok(Outcome::Done)),
        Stage::Idle => finish(s, Ok(Outcome::Done)),
    }
}

/// The handles that teardown releases, in order: the service handle where
/// one is open, then the registry handle.
pub open spec fn handles_to_release<H>(s: ControllerState<H>) -> Seq<H> {
    match s.service {
        ServiceHandle::Open(h) => seq![h, s.registry],
        _ => seq![s.registry],
    }
}

/// The action calls into the service registry.
pub open spec fn is_registry_call<H>(a: Action<H>) -> bool {
    a !is CheckPath && a !is Finish
}

/// An installation whose executable path does not exist fails with
/// `InvalidPath`, carrying that path, and makes no registry call on the
/// way: both handles stay as they were.
pub proof fn lemma_install_missing_path<H>(s: ControllerState<H>, config: ServiceConfig)
    requires
        s.wf(),
        is_idle(s.stage),
    ensures
        ({
            let (s1, a1) = begin_install_spec(s, config);
            let (s2, a2) = next_spec(s1, Event::PathChecked(Ok(false)));
            &&& !is_registry_call(a1)
            &&& a2 == Action::<H>::Finish(Err(Error::InvalidPath(config.exe_path)))
            &&& s2.registry == s.registry
            &&& s2.service == s.service
            &&& is_idle(s2.stage)
        }),
{
}

/// A completed installation followed by a completed uninstallation leaves
/// no service handle open: the installation caches the new handle, the
/// uninstallation deletes the service through it and then releases it.
/// A status query after that opens the service afresh, and reports
/// `Stopped` whenever the service cannot be opened.
pub proof fn lemma_install_then_uninstall<H>(
    s: ControllerState<H>,
    config: ServiceConfig,
    h: H,
    code: u32,
)
    requires
        s.wf(),
        is_idle(s.stage),
    ensures
        ({
            let s1 = begin_install_spec(s, config).0;
            let s2 = next_spec(s1, Event::PathChecked(Ok(true))).0;
            let (s3, a3) = next_spec(s2, Event::Opened(Ok(h)));
            let (s4, a4) = if s.service is Open {
                next_spec(s3, Event::Closed)
            } else {
                (s3, a3)
            };
            let (s5, a5) = if config.description@.len() > 0 {
                next_spec(s4, Event::Completed(Ok(())))
            } else {
                (s4, a4)
            };
            let (u1, b1) = begin_spec(s5, Operation::Uninstall);
            let (u2, b2) = next_spec(u1, Event::Completed(Ok(())));
            let (u3, b3) = next_spec(u2, Event::Closed);
            let (q1, c1) = begin_spec(u3, Operation::Status);
            let (q2, c2) = next_spec(q1, Event::Opened(Err(code)));
            &&& a5 == Action::<H>::Finish(Ok(Outcome::Done))
            &&& s5.service == ServiceHandle::Open(h)
            &&& b1 == Action::DeleteService(h)
            &&& b2 == Action::<H>::CloseService(h)
            &&& b3 == Action::<H>::Finish(Ok(Outcome::Done))
            &&& u3.service == ServiceHandle::<H>::Invalidated
            &&& c1 == Action::<H>::OpenService
            &&& c2 == Action::<H>::Finish(Ok(Outcome::Reported(ServiceStatus::Stopped)))
            &&& q2.service !is Open
            &&& q2.registry == s.registry
        }),
{
}

/// A status query on a manager with no open service handle (a name that
/// was never installed) opens the service, and reports `Stopped`, not an
/// error, when that fails.
pub proof fn lemma_status_of_unresolved_service<H>(s: ControllerState<H>, code: u32)
    requires
        s.wf(),
        is_idle(s.stage),
        s.service !is Open,
    ensures
        ({
            let (s1, a1) = begin_spec(s, Operation::Status);
            let (s2, a2) = next_spec(s1, Event::Opened(Err(code)));
            &&& a1 == Action::<H>::OpenService
            &&& a2 == Action::<H>::Finish(Ok(Outcome::Reported(ServiceStatus::Stopped)))
            &&& s2.service == s.service
        }),
{
}

/// After an uninstallation completes, a second one opens the service
/// afresh; where that fails it ends with the classified error, which is
/// `ServiceNotFound` for a name that is no longer registered, and holds no
/// service handle.
pub proof fn lemma_uninstall_twice<H>(s: ControllerState<H>, code: u32)
    requires
        s.wf(),
        s.stage == Stage::Releasing,
    ensures
        ({
            let (s1, a1) = next_spec(s, Event::Closed);
            let (s2, a2) = begin_spec(s1, Operation::Uninstall);
            let (s3, a3) = next_spec(s2, Event::Opened(Err(code)));
            &&& a1 == Action::<H>::Finish(Ok(Outcome::Done))
            &&& a2 == Action::<H>::OpenService
            &&& a3 == Action::<H>::Finish(Err(classify(code)))
            &&& win32_code_of(code) == ERROR_SERVICE_DOES_NOT_EXIST ==> a3
                == Action::<H>::Finish(Err(Error::ServiceNotFound))
            &&& s3.service is Invalidated
            &&& is_idle(s3.stage)
        }),
{
}

/// Teardown of a manager whose service handle is not open releases the
/// registry handle alone.
pub proof fn lemma_teardown_without_service_handle<H>(s: ControllerState<H>)
    requires
        s.service !is Open,
    ensures
        handles_to_release(s) == seq![s.registry],
{
}

/// The decisions of a service manager: which platform call comes next,
/// what the answer means, and which handles it owns. It holds the handle to
/// the service registry for its whole life and the handle to one named
/// service once that has been opened.
pub struct ServiceController<H> {
    registry: H,
    service: ServiceHandle<H>,
    stage: Stage,
}

impl<H> View for ServiceController<H> {
    type V = ControllerState<H>;

    closed spec fn view(&self) -> ControllerState<H> {
        ControllerState { registry: self.registry, service: self.service, stage: self.stage }
    }
}

impl<H: Copy> ServiceController<H> {
    /// A controller that owns the registry handle `registry` and has not
    /// resolved the service yet.
    pub fn new(registry: H) -> (r: Self)
        ensures
            r@.wf(),
            r@.registry == registry,
            r@.service == ServiceHandle::<H>::Unresolved,
            r@.stage == Stage::Idle,
    {
        ServiceController { registry, service: ServiceHandle::Unresolved, stage: Stage::Idle }
    }

    /// A controller from the answer to opening the registry: its handle, or
    /// the classified failure.
    pub fn open(registry: Result<H, u32>) -> (r: Result<Self, Error>)
        ensures
            match registry {
                Ok(h) => r matches Ok(c) && c@.wf() && c@.registry == h && c@.service
                    == ServiceHandle::<H>::Unresolved && c@.stage == Stage::Idle,
                Err(code) => r matches Err(e) && e == classify(code),
            },
    {
        match registry {
            Ok(h) => Ok(Self::new(h)),
            Err(code) => Err(Error::from(code)),
        }
    }

    /// The registry handle.
    pub fn registry(&self) -> (r: H)
        ensures
            r == self@.registry,
    {
        self.registry
    }

    /// The cached service handle.
    pub fn service(&self) -> (r: ServiceHandle<H>)
        ensures
            r == self@.service,
    {
        self.service
    }

    /// No operation is in progress.
    pub fn is_idle(&self) -> (r: bool)
        ensures
            r == is_idle(self@.stage),
    {
        match self.stage {
            Stage::Idle => true,
            _ => false,
        }
    }

    /// `ev` is the kind of answer that the operation in progress waits for.
    pub fn accepts(&self, ev: &Event<H>) -> (r: bool)
        ensures
            r == (kind_of(*ev) == awaited(self@.stage) && !is_idle(self@.stage)),
    {
        match (&self.stage, ev) {
            (Stage::CheckingPath(_), Event::PathChecked(_)) => true,
            (Stage::Creating(_), Event::Opened(_)) => true,
            (Stage::ReleasingStale(_), Event::Closed) => true,
            (Stage::Describing, Event::Completed(_)) => true,
            (Stage::Resolving(_), Event::Opened(_)) => true,
            (Stage::Controlling(Operation::Status), Event::Queried(_)) => true,
            (Stage::Controlling(Operation::Uninstall), Event::Completed(_)) => true,
            (Stage::Controlling(Operation::Start), Event::Completed(_)) => true,
            (Stage::Controlling(Operation::Stop), Event::Completed(_)) => true,
            (Stage::Releasing, Event::Closed) => true,
            _ => false,
        }
    }

    /// Starts installing the service that `config` describes: the first
    /// step checks the executable path, before any registry call.
    pub fn begin_install(&mut self, config: ServiceConfig) -> (a: Action<H>)
        requires
            old(self)@.wf(),
            is_idle(old(self)@.stage),
        ensures
            final(self)@.wf(),
            (final(self)@, a) == begin_install_spec(old(self)@, config),
            reply_to(a) == awaited(final(self)@.stage),
    {
        let path = config.exe_path.clone();
        self.stage = Stage::CheckingPath(config);
        Action::CheckPath(path)
    }

    /// Starts `op` on the named service, on the cached handle where one is
    /// open and else by opening the service first. A status query whose
    /// service cannot be opened reports `Stopped`, so a name that was never
    /// installed reads the same as an installed service that is stopped.
    pub fn begin(&mut self, op: Operation) -> (a: Action<H>)
        requires
            old(self)@.wf(),
            is_idle(old(self)@.stage),
        ensures
            final(self)@.wf(),
            (final(self)@, a) == begin_spec(old(self)@, op),
            reply_to(a) == awaited(final(self)@.stage),
    {
        match self.service {
            ServiceHandle::Open(h) => {
                self.stage = Stage::Controlling(op);
                Self::control(op, h)
            },
            _ => {
                self.stage = Stage::Resolving(op);
                Action::OpenService
            },
        }
    }

    fn control(op: Operation, h: H) -> (a: Action<H>)
        ensures
            a == control_action(op, h),
    {
        match op {
            Operation::Uninstall => Action::DeleteService(h),
            Operation::Start => Action::StartService(h),
            Operation::Stop => Action::StopService(h),
            Operation::Status => Action::QueryStatus(h),
        }
    }

    fn finish(&mut self, r: Result<Outcome, Error>) -> (a: Action<H>)
        ensures
            (final(self)@, a) == finish(old(self)@, r),
    {
        self.stage = Stage::Idle;
        Action::Finish(r)
    }

    fn completion(r: Result<(), u32>) -> (o: Result<Outcome, Error>)
        ensures
            o == completion(r),
    {
        match r {
            Ok(_) => Ok(Outcome::Done),
            Err(code) => Err(Error::from(code)),
        }
    }

    fn describe_or_finish(&mut self, h: H, d: String) -> (a: Action<H>)
        ensures
            (final(self)@, a) == describe_or_finish(old(self)@, h, d),
    {
        if !d.as_str().is_empty() {
            self.stage = Stage::Describing;
            Action::SetDescription(h, d)
        } else {
            self.finish(Ok(Outcome::Done))
        }
    }

    /// Takes the platform's answer to the last action and decides the next.
    pub fn step(&mut self, ev: Event<H>) -> (a: Action<H>)
        requires
            old(self)@.wf(),
            !is_idle(old(self)@.stage),
            kind_of(ev) == awaited(old(self)@.stage),
        ensures
            final(self)@.wf(),
            (final(self)@, a) == next_spec(old(self)@, ev),
            reply_to(a) == awaited(final(self)@.stage),
    {
        let mut stage = Stage::Idle;
        core::mem::swap(&mut self.stage, &mut stage);
        match stage {
            Stage::CheckingPath(config) => match ev {
                Event::PathChecked(Err(cause)) => self.finish(Err(Error::Io(cause))),
                Event::PathChecked(Ok(false)) => self.finish(Err(Error::InvalidPath(config.exe_path))),
                _ => {
                    let start_type = config.start_type.platform_code();
                    self.stage = Stage::Creating(config.description);
                    Action::CreateService {
                        display_name: config.display_name,
                        exe_path: config.exe_path,
                        start_type,
                    }
                },
            },
            Stage::Creating(d) => match ev {
                Event::Opened(Ok(h)) => match self.service {
                    ServiceHandle::Open(stale) => {
                        self.service = ServiceHandle::Open(h);
                        self.stage = Stage::ReleasingStale(d);
                        Action::CloseService(stale)
                    },
                    _ => {
                        self.service = ServiceHandle::Open(h);
                        self.describe_or_finish(h, d)
                    },
                },
                Event::Opened(Err(code)) => self.finish(Err(Error::from(code))),
                _ => self.finish(Ok(Outcome::Done)),
            },
            Stage::ReleasingStale(d) => match self.service {
                ServiceHandle::Open(h) => self.describe_or_finish(h, d),
                _ => self.finish(Ok(Outcome::Done)),
            },
            Stage::Describing => match ev {
                Event::Completed(r) => self.finish(Self::completion(r)),
                _ => self.finish(Ok(Outcome::Done)),
            },
            Stage::Resolving(op) => match ev {
                Event::Opened(Ok(h)) => {
                    self.service = ServiceHandle::Open(h);
                    self.stage = Stage::Controlling(op);
                    Self::control(op, h)
                },
                Event::Opened(Err(code)) => match op {
                    Operation::Status => self.finish(Ok(Outcome::Reported(ServiceStatus::Stopped))),
                    _ => self.finish(Err(Error::from(code))),
                },
                _ => self.finish(Ok(Outcome::Done)),
            },
            Stage::Controlling(op) => match ev {
                Event::Queried(Ok(state)) => self.finish(Ok(Outcome::Reported(ServiceStatus::from(state)))),
                Event::Queried(Err(code)) => self.finish(Err(Error::from(code))),
                Event::Completed(Ok(_)) => match (op, self.service) {
                    (Operation::Uninstall, ServiceHandle::Open(h)) => {
                        self.service = ServiceHandle::Invalidated;
                        self.stage = Stage::Releasing;
                        Action::CloseService(h)
                    },
                    _ => self.finish(Ok(Outcome::Done)),
                },
                Event::Completed(Err(code)) => self.finish(Err(Error::from(code))),
                _ => self.finish(Ok(Outcome::Done)),
            },
            Stage::Releasing => self.finish(Ok(Outcome::Done)),
            Stage::Idle => self.finish(Ok(Outcome::Done)),
        }
    }

    /// Tears the controller down and hands back the handles to release:
    /// the service handle only where one is open, then the registry handle.
    pub fn into_handles(self) -> (r: Vec<H>)
        ensures
            r@ == handles_to_release(self@),
    {
        let mut r: Vec<H> = Vec::new();
        match self.service {
            ServiceHandle::Open(h) => r.push(h),
            _ => {},
        }
        r.push(self.registry);
        r
    }
}

} // verus!
