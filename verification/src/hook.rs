//! Lifecycle hooks: the application's own executable, run at a point of the
//! installation with the point's name and the version as arguments.

use vstd::prelude::*;
use crate::error::{PlatformError, TimeLimit};
use crate::process::{captured_launch, Arguments, Launch, Supervision, CREATE_NO_WINDOW};

verus! {

/// A hook to run. Whatever becomes of `launch`, the processes of the package
/// rooted at `force_stop` are terminated afterwards.
#[derive(Debug, PartialEq, Eq)]
pub struct HookPlan {
    pub launch: Launch,
    pub force_stop: String,
}

/// How a hook ended: what to warn of, if anything, and the package whose
/// processes are now to be terminated.
#[derive(Debug, PartialEq, Eq)]
pub struct HookEnd {
    pub warning: Option<PlatformError>,
    pub force_stop: String,
}

/// Plans the hook `hook_name` of the application installed under `root_path`:
/// its main executable `main_exe_path` runs in `current_path`, the directory
/// of the current version, with the hook's name and `version` as arguments,
/// for `timeout_secs` seconds at most.
pub fn run_hook(
    root_path: &str,
    current_path: &str,
    main_exe_path: &str,
    hook_name: &str,
    version: &str,
    timeout_secs: u64,
) -> (r: HookPlan)
    ensures
        r.launch@ == captured_launch(
            main_exe_path@,
            seq![hook_name@, version@],
            current_path@,
            Some(TimeLimit { secs: timeout_secs, nanos: 0 }),
        ),
        r.force_stop@ == root_path@,
{
    let mut args: Vec<String> = Vec::new();
    args.push(hook_name.to_owned());
    args.push(version.to_owned());
    assert(crate::text::texts(args@) =~= seq![hook_name@, version@]);
    HookPlan {
        launch: Launch {
            exe: main_exe_path.to_owned(),
            args: Arguments::List(args),
            work_dir: current_path.to_owned(),
            creation_flags: CREATE_NO_WINDOW,
            supervision: Supervision::Captured { limit: Some(TimeLimit::from_secs(timeout_secs)) },
        },
        force_stop: root_path.to_owned(),
    }
}

/// Closes a hook. Its failure is a warning and no more: the installation
/// goes on, and the package's processes are terminated in either case.
pub fn hook_finished(plan: HookPlan, outcome: Result<String, PlatformError>) -> (r: HookEnd)
    ensures
        r.force_stop@ == plan.force_stop@,
        r.warning == match outcome {
            Ok(_) => None::<PlatformError>,
            Err(e) => Some(e),
        },
{
    let warning = match outcome {
        Ok(_) => None,
        Err(e) => Some(e),
    };
    HookEnd { warning, force_stop: plan.force_stop }
}

} // verus!
