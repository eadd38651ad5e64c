use vstd::prelude::*;

verus! {

/// Start policy code for a service that starts at boot.
pub const SERVICE_AUTO_START: u32 = 2;

/// Start policy code for a service that starts on request.
pub const SERVICE_DEMAND_START: u32 = 3;

/// Start policy code for a service that cannot be started.
pub const SERVICE_DISABLED: u32 = 4;

/// When the service control facility starts a service.
#[derive(Debug, Clone, Copy, PartialEq, Eq, Structural)]
pub enum StartType {
    Auto,
    Manual,
    Demand,
    Disabled,
}

/// The platform start policy of a start type: `Manual` and `Demand` share one.
pub open spec fn start_code_of(t: StartType) -> u32 {
    match t {
        StartType::Auto => SERVICE_AUTO_START,
        StartType::Manual => SERVICE_DEMAND_START,
        StartType::Demand => SERVICE_DEMAND_START,
        StartType::Disabled => SERVICE_DISABLED,
    }
}

impl StartType {
    /// The platform start policy that this start type registers with.
    pub fn platform_code(&self) -> (r: u32)
        ensures
            r == start_code_of(*self),
    {
        match self {
            StartType::Auto => SERVICE_AUTO_START,
            StartType::Manual | StartType::Demand => SERVICE_DEMAND_START,
            StartType::Disabled => SERVICE_DISABLED,
        }
    }
}

/// How a service is registered: what runs, under which label, when it
/// starts and what it depends on.
#[derive(Debug, Clone, PartialEq, Eq)]
pub struct ServiceConfig {
    pub exe_path: String,
    pub display_name: String,
    /// Empty means that no description is attached.
    pub description: String,
    pub start_type: StartType,
    pub dependencies: Vec<String>,
}

impl ServiceConfig {
    /// The executable path and the display name are given.
    pub open spec fn wf(&self) -> bool {
        self.exe_path@.len() > 0 && self.display_name@.len() > 0
    }

    /// A descriptor with no description, demand start and no dependencies.
    pub fn new(exe_path: String, display_name: String) -> (r: ServiceConfig)
        requires
            exe_path@.len() > 0,
            display_name@.len() > 0,
        ensures
            r.wf(),
            r.exe_path@ == exe_path@,
            r.display_name@ == display_name@,
            r.description@.len() == 0,
            r.start_type == StartType::Demand,
            r.dependencies@.len() == 0,
    {
        ServiceConfig {
            exe_path,
            display_name,
            description: String::new(),
            start_type: StartType::Demand,
            dependencies: Vec::new(),
        }
    }

    /// The same descriptor with `description` in place of its description.
    pub fn with_description(self, description: String) -> (r: ServiceConfig)
        ensures
            r.description@ == description@,
            r.exe_path@ == self.exe_path@,
            r.display_name@ == self.display_name@,
            r.start_type == self.start_type,
            r.dependencies@ == self.dependencies@,
    {
        let mut r = self;
        r.description = description;
        r
    }

    /// The same descriptor with `start_type` in place of its start type.
    pub fn with_start_type(self, start_type: StartType) -> (r: ServiceConfig)
        ensures
            r.start_type == start_type,
            r.exe_path@ == self.exe_path@,
            r.display_name@ == self.display_name@,
            r.description@ == self.description@,
            r.dependencies@ == self.dependencies@,
    {
        let mut r = self;
        r.start_type = start_type;
        r
    }

    /// The same descriptor with `dependencies` in place of its dependency list.
    pub fn with_dependencies(self, dependencies: Vec<String>) -> (r: ServiceConfig)
        ensures
            r.dependencies@ == dependencies@,
            r.exe_path@ == self.exe_path@,
            r.display_name@ == self.display_name@,
            r.description@ == self.description@,
            r.start_type == self.start_type,
    {
        let mut r = self;
        r.dependencies = dependencies;
        r
    }
}

} // verus!
