//! Assembly of the final command line from the accumulated selections.

use vstd::prelude::*;

verus! {

/// The selections accumulated across the cascade: the credential profile,
/// one short identifier per hierarchy level, and the free-text command.
/// The service identifier is only ever a lookup key for the task stage; the
/// synthesized line does not contain it.
#[derive(Debug, PartialEq, Eq)]
pub struct SelectionContext {
    pub profile: String,
    pub cluster: String,
    pub service: String,
    pub task: String,
    pub container: String,
    pub command: String,
}

/// The exact line the tool prints for the given selections. No escaping or
/// quoting is applied to the interpolated values: whitespace or shell
/// metacharacters inside them pass through literally, so a downstream shell
/// re-tokenizes the line at its own risk.
pub open spec fn spec_command_line(
    profile: Seq<char>,
    cluster: Seq<char>,
    container: Seq<char>,
    command: Seq<char>,
    task: Seq<char>,
) -> Seq<char> {
    "aws --profile "@ + profile + " ecs execute-command --cluster "@ + cluster + " --container "@
        + container + " --interactive --command "@ + command + " --task "@ + task
}

/// Assembles the remote-execution command line for a fully populated
/// selection context.
pub fn synthesize(context: &SelectionContext) -> (r: String)
    ensures
        r@ == spec_command_line(
            context.profile@,
            context.cluster@,
            context.container@,
            context.command@,
            context.task@,
        ),
{
    let mut r = String::from_str("aws --profile ");
    r.append(context.profile.as_str());
    r.append(" ecs execute-command --cluster ");
    r.append(context.cluster.as_str());
    r.append(" --container ");
    r.append(context.container.as_str());
    r.append(" --interactive --command ");
    r.append(context.command.as_str());
    r.append(" --task ");
    r.append(context.task.as_str());
    r
}

/// Synthesis is a pure, deterministic function of five inputs: two contexts
/// that agree on profile, cluster, container, command and task produce the
/// identical line, whatever their service fields hold, with no normalization
/// or escaping applied to any of the five.
pub proof fn lemma_synthesis_deterministic(a: SelectionContext, b: SelectionContext)
    requires
        a.profile@ == b.profile@,
        a.cluster@ == b.cluster@,
        a.container@ == b.container@,
        a.command@ == b.command@,
        a.task@ == b.task@,
    ensures
        spec_command_line(a.profile@, a.cluster@, a.container@, a.command@, a.task@)
            == spec_command_line(b.profile@, b.cluster@, b.container@, b.command@, b.task@),
{
}

} // verus!
