use vstd::prelude::*;

verus! {

/// The run-states that a service can report.
#[derive(Debug, Clone, Copy, PartialEq, Eq, Structural)]
pub enum ServiceStatus {
    Stopped,
    StartPending,
    StopPending,
    Running,
    ContinuePending,
    PausePending,
    Paused,
    Unknown,
}

/// The status that a raw run-state code stands for; every code outside
/// the documented range is `Unknown`.
pub open spec fn status_of(state: u32) -> ServiceStatus {
    if state == 1 {
        ServiceStatus::Stopped
    } else if state == 2 {
        ServiceStatus::StartPending
    } else if state == 3 {
        ServiceStatus::StopPending
    } else if state == 4 {
        ServiceStatus::Running
    } else if state == 5 {
        ServiceStatus::ContinuePending
    } else if state == 6 {
        ServiceStatus::PausePending
    } else if state == 7 {
        ServiceStatus::Paused
    } else {
        ServiceStatus::Unknown
    }
}

/// The status mapping is total: each code from 1 to 7 reads as its own
/// documented state, and every other code reads as `Unknown`.
pub proof fn lemma_status_mapping_total(state: u32)
    ensures
        status_of(1) == ServiceStatus::Stopped,
        status_of(2) == ServiceStatus::StartPending,
        status_of(3) == ServiceStatus::StopPending,
        status_of(4) == ServiceStatus::Running,
        status_of(5) == ServiceStatus::ContinuePending,
        status_of(6) == ServiceStatus::PausePending,
        status_of(7) == ServiceStatus::Paused,
        1 <= state <= 7 ==> status_of(state) != ServiceStatus::Unknown,
        (state < 1 || state > 7) ==> status_of(state) == ServiceStatus::Unknown,
{
}

impl From<u32> for ServiceStatus {
    fn from(state: u32) -> (r: ServiceStatus)
        ensures
            r == status_of(state),
    {
        match state {
            1 => ServiceStatus::Stopped,
            2 => ServiceStatus::StartPending,
            3 => ServiceStatus::StopPending,
            4 => ServiceStatus::Running,
            5 => ServiceStatus::ContinuePending,
            6 => ServiceStatus::PausePending,
            7 => ServiceStatus::Paused,
            _ => ServiceStatus::Unknown,
        }
    }
}

impl vstd::std_specs::convert::FromSpecImpl<u32> for ServiceStatus {
    open spec fn obeys_from_spec() -> bool {
        true
    }

    open spec fn from_spec(state: u32) -> ServiceStatus {
        status_of(state)
    }
}

} // verus!
