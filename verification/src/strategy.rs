//! Choice of the command line that starts the backend process.

use vstd::prelude::*;

use crate::errors::SupervisorError;

verus! {

/// How the backend is invoked. The mode is explicit configuration, fixed
/// when the strategy is built; it never changes per call and there is no
/// implicit fallback from one mode to the other.
#[derive(Clone, Copy, Debug, PartialEq, Eq, Structural)]
pub enum LaunchMode {
    /// Direct interpreter invocation of the service entry point.
    Development,
    /// Invocation of the prebuilt executable bundled with the host.
    Production,
}

/// A concrete command line: the program to run and its argument list.
#[derive(Debug, Clone, PartialEq, Eq)]
pub struct CommandSpec {
    pub program: String,
    pub args: Vec<String>,
}

/// The fixed development command line: the interpreter runs the service
/// entry point bound to the loopback address and the fixed port.
pub open spec fn is_dev_command(c: &CommandSpec) -> bool {
    &&& c.program@ == "python3"@
    &&& c.args@.len() == 7
    &&& c.args@[0]@ == "-m"@
    &&& c.args@[1]@ == "uvicorn"@
    &&& c.args@[2]@ == "src.api.main:app"@
    &&& c.args@[3]@ == "--host"@
    &&& c.args@[4]@ == "127.0.0.1"@
    &&& c.args@[5]@ == "--port"@
    &&& c.args@[6]@ == "8000"@
}

/// The production command line: the located bundled executable, invoked
/// with no arguments.
pub open spec fn is_sidecar_command(c: &CommandSpec, located: Seq<char>) -> bool {
    &&& c.program@ == located
    &&& c.args@.len() == 0
}

/// Decides, from the active mode and the host's resolution of the bundled
/// executable, which command line starts the backend.
#[derive(Debug, Clone, PartialEq, Eq)]
pub struct LaunchStrategy {
    pub mode: LaunchMode,
    /// Where the host's sidecar-resolution mechanism found the bundled
    /// production executable, if it found one at all.
    pub sidecar: Option<String>,
}

/// Exactly which resolution result the strategy admits: development mode
/// always yields the fixed interpreter command; production mode yields the
/// located bundled executable, or a resolution error when none was located.
pub open spec fn resolves_to(s: &LaunchStrategy, r: &Result<CommandSpec, SupervisorError>) -> bool {
    match s.mode {
        LaunchMode::Development => r matches Ok(c) && is_dev_command(c),
        LaunchMode::Production => match s.sidecar {
            Some(p) => r matches Ok(c) && is_sidecar_command(c, p@),
            None => r matches Err(e) && e is Resolution,
        },
    }
}

impl LaunchStrategy {
    pub fn new(mode: LaunchMode, sidecar: Option<String>) -> (s: LaunchStrategy)
        ensures
            s.mode == mode,
            s.sidecar == sidecar,
    {
        LaunchStrategy { mode, sidecar }
    }

    /// Produce the command line for the active mode. Never falls back from
    /// production to development: a missing bundled executable is an error.
    pub fn resolve(&self) -> (r: Result<CommandSpec, SupervisorError>)
        ensures
            resolves_to(self, &r),
    {
        match self.mode {
            LaunchMode::Development => Ok(dev_command()),
            LaunchMode::Production => match &self.sidecar {
                Some(p) => Ok(CommandSpec { program: p.clone(), args: Vec::new() }),
                None => Err(
                    SupervisorError::Resolution(
                        "no bundled backend executable could be located".to_owned(),
                    ),
                ),
            },
        }
    }
}

/// Build the development command line.
pub fn dev_command() -> (c: CommandSpec)
    ensures
        is_dev_command(&c),
{
    let mut args: Vec<String> = Vec::new();
    args.push("-m".to_owned());
    args.push("uvicorn".to_owned());
    args.push("src.api.main:app".to_owned());
    args.push("--host".to_owned());
    args.push("127.0.0.1".to_owned());
    args.push("--port".to_owned());
    args.push("8000".to_owned());
    CommandSpec { program: "python3".to_owned(), args }
}

/// Two command lines that agree in every observable part.
pub open spec fn same_command(c1: &CommandSpec, c2: &CommandSpec) -> bool {
    &&& c1.program@ == c2.program@
    &&& c1.args@.len() == c2.args@.len()
    &&& forall|i: int| 0 <= i < c1.args@.len() ==> (#[trigger] c1.args@[i])@ == c2.args@[i]@
}

/// Mode determinism: for one strategy, any two admitted resolutions agree.
/// In development mode the command is always the fixed interpreter
/// invocation; in production it is always the located bundled executable.
pub proof fn lemma_resolution_deterministic(
    s: &LaunchStrategy,
    r1: &Result<CommandSpec, SupervisorError>,
    r2: &Result<CommandSpec, SupervisorError>,
)
    requires
        resolves_to(s, r1),
        resolves_to(s, r2),
    ensures
        r1 is Ok <==> r2 is Ok,
        r1 matches Ok(c1) ==> (r2 matches Ok(c2) && same_command(c1, c2)),
{
}

/// No silent fallback: a production resolution never yields the
/// development command line, so a packaging defect cannot hide behind the
/// interpreter path.
pub proof fn lemma_no_mode_mix(s: &LaunchStrategy, r: &Result<CommandSpec, SupervisorError>)
    requires
        s.mode is Production,
        resolves_to(s, r),
    ensures
        r matches Ok(c) ==> !is_dev_command(c),
{
}

} // verus!
