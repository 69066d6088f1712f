//! How a browser is launched: the errors a launch can meet, and the plan of
//! flags it is started with.

use vstd::prelude::*;
use crate::text::{decimal, decimal_text};

verus! {

/// Why a browser instance could not be created.
#[derive(Debug)]
pub enum LaunchError {
    /// The OS offered no free loopback port.
    NoFreePort,
    /// The browser process did not start.
    LaunchFailed(String),
    /// The browser started but reported no process id.
    NoPid,
    /// The launch arguments were refused.
    ConfigInvalid(String),
}

/// The flags of one launch, besides its user-data directory. `headless` picks
/// the new headless mode; without it the browser opens a window.
#[derive(Debug)]
pub struct LaunchPlan {
    pub headless: bool,
    pub user_data_dir: String,
    pub args: Vec<String>,
}

/// The flag that opens the DevTools endpoint on `port`.
pub open spec fn debugging_port_arg(port: u16) -> Seq<char> {
    "--remote-debugging-port="@ + decimal(port as nat)
}

/// Flags for running inside a container.
pub open spec fn container_args() -> Seq<Seq<char>> {
    seq!["--disable-gpu"@, "--disable-setuid-sandbox"@, "--disable-dev-shm-usage"@]
}

/// The flags of a launch on `port`: the endpoint, the sandbox switched off, and
/// the container flags when running in one.
pub open spec fn launch_args(port: u16, in_container: bool) -> Seq<Seq<char>> {
    if in_container {
        seq![debugging_port_arg(port), "--no-sandbox"@] + container_args()
    } else {
        seq![debugging_port_arg(port), "--no-sandbox"@]
    }
}

/// Whether the container switch is on: the variable is set to exactly `true`.
pub fn in_container(var: Option<String>) -> (r: bool)
    ensures
        r == (var matches Some(v) && v@ == "true"@),
{
    match var {
        Some(v) => v == String::from_str("true"),
        None => false,
    }
}

/// Plans a launch on the probed `port` with the given user-data directory:
/// fails with `NoFreePort` when no port was found; otherwise the endpoint flag
/// and `--no-sandbox`, followed by the container flags when `in_container` holds.
pub fn plan_launch(port: Option<u16>, user_data_dir: String, in_container: bool) -> (r: Result<
    LaunchPlan,
    LaunchError,
>)
    ensures
        match port {
            None => r matches Err(LaunchError::NoFreePort),
            Some(p) => r matches Ok(plan) && plan.headless == in_container && plan.user_data_dir@
                == user_data_dir@ && plan.args@.map_values(|a: String| a@) == launch_args(
                p,
                in_container,
            ),
        },
{
    let p = match port {
        Some(p) => p,
        None => {
            return Err(LaunchError::NoFreePort);
        },
    };
    let port_arg = String::from_str("--remote-debugging-port=").concat(
        decimal_text(p as u64).as_str(),
    );
    let mut args: Vec<String> = Vec::new();
    args.push(port_arg);
    args.push(String::from_str("--no-sandbox"));
    if in_container {
        args.push(String::from_str("--disable-gpu"));
        args.push(String::from_str("--disable-setuid-sandbox"));
        args.push(String::from_str("--disable-dev-shm-usage"));
    }
    assert(args@.map_values(|a: String| a@) =~= launch_args(p, in_container));
    Ok(LaunchPlan { headless: in_container, user_data_dir, args })
}

} // verus!
