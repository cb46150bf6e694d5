//! Startup decisions of a small desktop application shell.
//!
//! The shell itself only registers capabilities with its host GUI
//! framework and then hands control to the framework's event loop.
//! Everything the shell decides before that hand-off is collected
//! here in a [`StartupPlan`], so the choices themselves are verified
//! even though the framework is not: the operating-system information
//! capability is registered in every build, and a diagnostic log is
//! attached exactly in a debug build, at the `Info` level.

use vstd::prelude::*;

verus! {

/// Verbosity threshold for the diagnostic log, from silent to most
/// verbose, matching the conventional log levels.
#[derive(Clone, Copy, Debug, PartialEq, Eq, Structural)]
pub enum LogLevel {
    Off,
    Error,
    Warn,
    Info,
    Debug,
    Trace,
}

/// Everything the shell decides before handing control to the host
/// framework's event loop.
#[derive(Clone, Copy, Debug)]
pub struct StartupPlan {
    /// Whether the operating-system information capability is registered.
    pub os_info: bool,
    /// The verbosity of the diagnostic log, when one is attached at all.
    pub logging: Option<LogLevel>,
}

/// What the shell decides for a given kind of build: the
/// operating-system information capability in every build, and a
/// diagnostic log, at the `Info` level, only in a debug build.
pub open spec fn plan_for(debug_build: bool) -> StartupPlan {
    StartupPlan {
        os_info: true,
        logging: if debug_build { Some(LogLevel::Info) } else { None },
    }
}

/// Builds the plan the shell follows at startup.
pub fn startup_plan(debug_build: bool) -> (p: StartupPlan)
    ensures
        p == plan_for(debug_build),
{
    StartupPlan {
        os_info: true,
        logging: if debug_build { Some(LogLevel::Info) } else { None },
    }
}

/// A diagnostic log is part of the plan if and only if the build is a
/// debug build, and then always at the `Info` level.
pub proof fn lemma_logging_iff_debug(debug_build: bool)
    ensures
        plan_for(debug_build).logging is Some <==> debug_build,
        debug_build ==> plan_for(debug_build).logging == Some(LogLevel::Info),
{
}

/// The operating-system information capability is part of the plan in
/// every build.
pub proof fn lemma_os_info_always(debug_build: bool)
    ensures
        plan_for(debug_build).os_info,
{
}

/// The fixed diagnostic the process aborts with when the host
/// framework's event loop fails to start.
pub fn startup_failure_message() -> (m: &'static str)
    ensures
        m@ == "error while running tauri application"@,
{
    "error while running tauri application"
}

} // verus!
