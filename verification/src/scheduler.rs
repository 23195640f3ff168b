//! The scheduling decision: run the provisioning workflow exactly once, or
//! forever on a fixed interval, depending on whether an interval was
//! configured.

use vstd::prelude::*;

verus! {

/// `parse_duration::parse::Error`, the error type of the interval parser;
/// carried opaquely out of the wrapper.
#[verifier::external_type_specification]
#[verifier::external_body]
pub struct ExParseError(parse_duration::parse::Error);

/// The duration that `parse_duration::parse` reads from the string, as
/// whole seconds and subsecond nanoseconds, or `None` where the string is
/// no duration; a function of the string alone.
pub uninterp spec fn parsed_interval_of(s: Seq<char>) -> Option<(u64, u32)>;

/// How the process runs: one workflow execution, or one per interval until
/// an external termination signal arrives.
#[derive(Clone, Copy, Debug, PartialEq, Eq, Structural)]
pub enum SchedulerMode {
    Once,
    Every { secs: u64, nanos: u32 },
}

/// What the run-forever loop does after one workflow execution: exit with
/// the cycle's outcome, or sleep for the interval and go again.
#[derive(Clone, Copy, Debug, PartialEq, Eq, Structural)]
pub enum LoopDirective {
    Exit { ok: bool },
    Sleep { secs: u64, nanos: u32 },
}

/// Relies on `parse_duration::parse`: reads a human-readable duration
/// string; the result is a function of the string alone.
#[verifier::external_body]
fn parse_interval(s: &str) -> (r: Result<(u64, u32), parse_duration::parse::Error>)
    ensures
        r is Ok <==> parsed_interval_of(s@) is Some,
        r is Ok ==> Some((r->Ok_0.0, r->Ok_0.1)) == parsed_interval_of(s@),
{
    let d = parse_duration::parse(s)?;
    Ok((d.as_secs(), d.subsec_nanos()))
}

/// Selects the scheduling mode: no configured interval means run-once; an
/// interval that parses means run-forever at that period; an interval that
/// does not parse means no mode can be selected and the process must fail.
pub fn scheduler_mode(interval: &Option<String>) -> (r: Option<SchedulerMode>)
    ensures
        interval is None ==> r == Some(SchedulerMode::Once),
        interval matches Some(s) ==> ({
            let p = parsed_interval_of(s@);
            &&& p is Some ==> r == Some(
                SchedulerMode::Every { secs: p->Some_0.0, nanos: p->Some_0.1 },
            )
            &&& p is None ==> r is None
        }),
{
    match interval {
        None => Some(SchedulerMode::Once),
        Some(s) => match parse_interval(s.as_str()) {
            Ok((secs, nanos)) => Some(SchedulerMode::Every { secs, nanos }),
            Err(_) => None,
        },
    }
}

/// The run-once / run-forever rule: in run-once mode the process exits
/// with the cycle's own outcome; in run-forever mode a failed cycle is
/// not fatal and the loop always sleeps for the interval and retries.
pub fn after_cycle(mode: &SchedulerMode, cycle_ok: bool) -> (r: LoopDirective)
    ensures
        *mode is Once ==> r == (LoopDirective::Exit { ok: cycle_ok }),
        *mode matches SchedulerMode::Every { secs, nanos } ==> r == (LoopDirective::Sleep {
            secs,
            nanos,
        }),
{
    match mode {
        SchedulerMode::Once => LoopDirective::Exit { ok: cycle_ok },
        SchedulerMode::Every { secs, nanos } => LoopDirective::Sleep {
            secs: *secs,
            nanos: *nanos,
        },
    }
}

} // verus!
