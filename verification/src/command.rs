//! The child-process invocation, as data: program name, argument vector and
//! environment overrides. The program is run directly from an argument
//! vector — never through a shell — with stdin closed and stdout and stderr
//! each piped, so no content of the request can be interpreted as shell
//! syntax.

use crate::request::{InstallRequest, ReqView};
use vstd::prelude::*;

verus! {

/// What to run: a program found on the `PATH`, its arguments in order, and
/// environment variables set for the child process alone.
pub struct CommandSpec {
    pub program: String,
    pub args: Vec<String>,
    pub env: Vec<(String, String)>,
}

/// The one invocation this pipeline performs:
/// `matrix install <entity> --alias <alias>`, with `MATRIX_HUB_BASE` set for
/// the child exactly when the request carries a hub override.
pub open spec fn command_matches(c: CommandSpec, r: ReqView) -> bool {
    &&& c.program@ == "matrix"@
    &&& c.args@.len() == 4
    &&& c.args@[0]@ == "install"@
    &&& c.args@[1]@ == r.entity
    &&& c.args@[2]@ == "--alias"@
    &&& c.args@[3]@ == r.alias
    &&& match r.hub {
        Some(h) => c.env@.len() == 1 && c.env@[0].0@ == "MATRIX_HUB_BASE"@ && c.env@[0].1@ == h,
        None => c.env@.len() == 0,
    }
}

/// Builds the invocation for a validated request.
pub fn install_command(req: &InstallRequest) -> (c: CommandSpec)
    ensures
        command_matches(c, req@),
{
    let mut args: Vec<String> = Vec::new();
    args.push("install".to_owned());
    args.push(req.entity.clone());
    args.push("--alias".to_owned());
    args.push(req.alias.clone());
    let mut env: Vec<(String, String)> = Vec::new();
    match &req.hub {
        Some(h) => {
            env.push(("MATRIX_HUB_BASE".to_owned(), h.clone()));
        },
        None => {},
    }
    CommandSpec { program: "matrix".to_owned(), args, env }
}

} // verus!
