mod config;
mod controller;
mod error;
mod status;

pub use config::{start_code_of, ServiceConfig, StartType, SERVICE_AUTO_START, SERVICE_DEMAND_START, SERVICE_DISABLED};
pub use controller::{Action, ControllerState, Event, Operation, Outcome, Reply, ServiceController, ServiceHandle, Stage};
pub use error::{classify, win32_code, win32_code_of, Error, ERROR_ACCESS_DENIED, ERROR_SERVICE_DOES_NOT_EXIST};
pub use status::{status_of, ServiceStatus};
