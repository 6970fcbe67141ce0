//! The request to have the dashboard restart the host runtime.

use vstd::prelude::*;

verus! {

/// What the host is told when a restart is asked for.
#[derive(Clone, Copy, Debug, PartialEq, Eq, Structural)]
pub enum RestartNotice {
    /// The dashboard runs and is asked to restart the server.
    RequestSelfRestart,
    /// No dashboard runs on this machine, so nothing can restart the server.
    DashboardNotFound,
}

/// Whether a process whose name contains `name` runs on this machine. This
/// calls `sysinfo::System::new_with_specifics`, `System::refresh_processes`
/// and `System::processes_by_name`. The answer depends on the machine, so
/// nothing is claimed of it.
#[verifier::external_body]
fn process_is_running(name: &str) -> (found: bool) {
    let mut system = sysinfo::System::new_with_specifics(
        sysinfo::RefreshKind::new().with_processes(sysinfo::ProcessRefreshKind::everything()),
    );
    system.refresh_processes();
    let found = system.processes_by_name(name).next().is_some();
    found
}

/// The notice that follows from whether the dashboard was found.
pub fn restart_notice(dashboard_found: bool) -> (notice: RestartNotice)
    ensures
        notice == if dashboard_found {
            RestartNotice::RequestSelfRestart
        } else {
            RestartNotice::DashboardNotFound
        },
{
    if dashboard_found {
        RestartNotice::RequestSelfRestart
    } else {
        RestartNotice::DashboardNotFound
    }
}

/// Looks for the dashboard process `dashboard_fname` and says what the host
/// is to be told.
pub fn notify_restart_driver(dashboard_fname: &str) -> (notice: RestartNotice) {
    restart_notice(process_is_running(dashboard_fname))
}

} // verus!
