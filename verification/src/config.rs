//! Startup configuration: the command every listener runs on a press.
use vstd::prelude::*;
use crate::errors::Errors;

verus! {

/// The command and argument list to execute on each press. Built once at
/// startup, immutable afterwards, shared read-only by every listener.
pub struct TriggerArgs {
    pub command: String,
    pub args: Vec<String>,
}

/// Builds the trigger configuration from the command-line tail (the
/// program name already removed). An empty tail is rejected with
/// `InvalidParams` — the one startup input error — and nothing else ever
/// is: otherwise the first word is the command and the rest its arguments.
pub fn build_trigger_args(args: Vec<String>) -> (r: Result<TriggerArgs, Errors>)
    ensures
        (args@.len() == 0 <==> (r matches Err(e) && e is InvalidParams)),
        r is Err ==> (r matches Err(e) && e is InvalidParams),
        args@.len() > 0 ==> (r matches Ok(t) && t.command == args@[0] && t.args@ == args@.subrange(
            1,
            args@.len() as int,
        )),
{
    if args.len() == 0 {
        return Err(Errors::InvalidParams);
    }
    let mut rest = args;
    let ghost whole = rest@;
    let command = rest.remove(0);
    proof {
        assert(rest@ =~= whole.subrange(1, whole.len() as int));
    }
    Ok(TriggerArgs { command, args: rest })
}

} // verus!
