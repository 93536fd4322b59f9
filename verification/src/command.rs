//! Commands as plain values: what to run, with which arguments, and which
//! environment assignments to add. Running them is left to the caller.

use crate::environment::{assignments, Assignment, EnvVar};
use crate::error::{joined, Error, ErrorView};
use crate::text::views;
use vstd::prelude::*;

verus! {

/// A command that is ready to be run.
#[derive(Clone, Debug, PartialEq, Eq)]
pub struct CommandPlan {
    /// The program, by path or by a name to look up on the search path.
    pub program: String,
    /// The arguments, in order.
    pub args: Vec<String>,
    /// The assignments to add to the inherited environment, in order.
    pub env: Vec<EnvVar>,
}

/// A `CommandPlan` as contracts see it.
pub struct CommandPlanView {
    pub program: Seq<char>,
    pub args: Seq<Seq<char>>,
    pub env: Seq<Assignment>,
}

impl View for CommandPlan {
    type V = CommandPlanView;

    open spec fn view(&self) -> CommandPlanView {
        CommandPlanView {
            program: self.program@,
            args: views(self.args@),
            env: assignments(self.env@),
        }
    }
}

/// The variable that tells the prefix tools which prefix they work on.
pub const KEY_PREFIX: &'static str = "WINEPREFIX";

/// The server of the background processes that a prefix keeps alive.
pub const SWEEP_PROGRAM: &'static str = "wineserver";

/// The argument that makes the server end every process of its prefix.
pub const SWEEP_FLAG: &'static str = "-k";

/// The tool that installs components into a prefix.
pub const PREFIX_TOOL: &'static str = "winetricks";

/// The shell that looks a command up on the search path.
pub const SHELL: &'static str = "sh";

/// The argument after which the shell takes a command line.
pub const SHELL_FLAG: &'static str = "-c";

/// The shell's own test for a command, before the name of the command.
pub const LOOKUP_TEXT: &'static str = "command -v ";

/// The program that reports on the graphics interface.
pub const GRAPHICS_PROGRAM: &'static str = "vulkaninfo";

/// The argument that keeps the report short.
pub const GRAPHICS_FLAG: &'static str = "--summary";

/// The command that ends the background processes of the prefix at
/// `prefix_path`. Without a prefix there is nothing to sweep.
pub open spec fn sweep_for(prefix_path: Seq<char>) -> Option<CommandPlanView> {
    if prefix_path.len() == 0 {
        None
    } else {
        Some(
            CommandPlanView {
                program: SWEEP_PROGRAM@,
                args: seq![SWEEP_FLAG@],
                env: seq![(KEY_PREFIX@, prefix_path)],
            },
        )
    }
}

/// The command that opens the prefix tool on the prefix at `prefix_path`.
pub open spec fn prefix_tool_for(prefix_path: Seq<char>) -> CommandPlanView {
    CommandPlanView {
        program: PREFIX_TOOL@,
        args: Seq::empty(),
        env: seq![(KEY_PREFIX@, prefix_path)],
    }
}

/// The command that succeeds exactly when `name` is a command on the search path.
pub open spec fn lookup_for(name: Seq<char>) -> CommandPlanView {
    CommandPlanView {
        program: SHELL@,
        args: seq![SHELL_FLAG@, LOOKUP_TEXT@ + name],
        env: Seq::empty(),
    }
}

/// The command that succeeds exactly when the graphics interface is usable.
pub open spec fn graphics_probe() -> CommandPlanView {
    CommandPlanView { program: GRAPHICS_PROGRAM@, args: seq![GRAPHICS_FLAG@], env: Seq::empty() }
}

/// The command that ends the session processes bound to the prefix at
/// `prefix_path`: those that the runtime started on its own and that may outlive
/// the supervised process. `None` when there is no prefix.
pub fn sweep_command(prefix_path: &str) -> (plan: Option<CommandPlan>)
    ensures
        match plan {
            Some(p) => sweep_for(prefix_path@) == Some(p@),
            None => sweep_for(prefix_path@) is None,
        },
{
    if prefix_path.is_empty() {
        return None;
    }
    let mut args: Vec<String> = Vec::new();
    args.push(SWEEP_FLAG.to_owned());
    let mut env: Vec<EnvVar> = Vec::new();
    env.push(EnvVar::new(KEY_PREFIX, prefix_path));
    let plan = CommandPlan { program: SWEEP_PROGRAM.to_owned(), args, env };
    proof {
        assert(plan@.args =~= seq![SWEEP_FLAG@]);
        assert(plan@.env =~= seq![(KEY_PREFIX@, prefix_path@)]);
    }
    Some(plan)
}

/// The command that opens the prefix tool on the prefix at `prefix_path`.
pub fn prefix_tool_command(prefix_path: &str) -> (plan: CommandPlan)
    ensures
        plan@ == prefix_tool_for(prefix_path@),
{
    let mut env: Vec<EnvVar> = Vec::new();
    env.push(EnvVar::new(KEY_PREFIX, prefix_path));
    let plan = CommandPlan { program: PREFIX_TOOL.to_owned(), args: Vec::new(), env };
    proof {
        assert(plan@.args =~= Seq::<Seq<char>>::empty());
        assert(plan@.env =~= seq![(KEY_PREFIX@, prefix_path@)]);
    }
    plan
}

/// What the front end is told after the prefix tool was started, or not: the
/// one failure is that the tool is not installed.
pub fn prefix_tool_outcome(started: bool) -> (r: Result<(), Error>)
    ensures
        match r {
            Ok(_) => started,
            Err(e) => !started && e@ == ErrorView::ToolMissing,
        },
{
    if started {
        Ok(())
    } else {
        Err(Error::ToolMissing)
    }
}

/// The command that succeeds exactly when `name` is a command on the search path.
pub fn lookup_command(name: &str) -> (plan: CommandPlan)
    ensures
        plan@ == lookup_for(name@),
{
    let mut args: Vec<String> = Vec::new();
    args.push(SHELL_FLAG.to_owned());
    args.push(joined(LOOKUP_TEXT, name));
    let plan = CommandPlan { program: SHELL.to_owned(), args, env: Vec::new() };
    proof {
        assert(plan@.args =~= seq![SHELL_FLAG@, LOOKUP_TEXT@ + name@]);
        assert(plan@.env =~= Seq::<Assignment>::empty());
    }
    plan
}

/// The command that succeeds exactly when the graphics interface is usable.
pub fn graphics_command() -> (plan: CommandPlan)
    ensures
        plan@ == graphics_probe(),
{
    let mut args: Vec<String> = Vec::new();
    args.push(GRAPHICS_FLAG.to_owned());
    let plan = CommandPlan { program: GRAPHICS_PROGRAM.to_owned(), args, env: Vec::new() };
    proof {
        assert(plan@.args =~= seq![GRAPHICS_FLAG@]);
        assert(plan@.env =~= Seq::<Assignment>::empty());
    }
    plan
}

/// What a probe found: `Some` with whether the command succeeded, `None` when it
/// could not be run at all. Only a command that ran and succeeded counts.
pub fn probe_succeeded(outcome: Option<bool>) -> (ok: bool)
    ensures
        ok == (outcome == Some(true)),
{
    match outcome {
        Some(success) => success,
        None => false,
    }
}

} // verus!
