//! Properties of the pipeline that relate several calls.
use vstd::prelude::*;
use crate::bridge::{AutoWireBridge, reply_answer};
use crate::records::AutoWireView;
use crate::terminal::{ShellRun, Terminal, output_after_run, ran_command, result_of, suggestion_lines};
use crate::text::lines_of;

verus! {

/// Running a command only appends to the output log: the earlier lines stay
/// as they were, and the lines of the captured standard output follow them,
/// in order.
pub proof fn law_output_append_only(out: Seq<Seq<char>>, run: ShellRun)
    ensures
        output_after_run(out, run).len() >= (out.len() + lines_of(run.stdout@).len()) as int,
        output_after_run(out, run).subrange(0, out.len() as int) == out,
        output_after_run(out, run).subrange(
            out.len() as int,
            (out.len() + lines_of(run.stdout@).len()) as int,
        ) == lines_of(run.stdout@),
{
    let l = lines_of(run.stdout@);
    let w = out + l;
    assert(w.subrange(0, out.len() as int) =~= out);
    assert(w.subrange(out.len() as int, (out.len() + l.len()) as int) =~= l);
    if run.stderr@.len() > 0 {
        let e = lines_of(crate::terminal::ERROR_PREFIX@ + run.stderr@);
        assert((w + e).subrange(0, out.len() as int) =~= out);
        assert((w + e).subrange(out.len() as int, (out.len() + l.len()) as int) =~= l);
    }
}

/// Once the service's answer `a` for `c` has been taken into the cache, the
/// next request for `c` is answered from the cache (no second service run)
/// with that same answer.
pub proof fn law_cache_idempotent(
    before: AutoWireBridge,
    after: AutoWireBridge,
    c: Seq<char>,
    a: AutoWireView,
)
    requires
        before.available(),
        after.available() == before.available(),
        after.cached() == before.cached().insert(c, a),
    ensures
        after.known_answer(c) == Some(a),
{
}

/// An absent service never answers, and a failed run or a reply that is not a
/// response object gives no answer; without an answer, a command runs exactly
/// as typed: same command, same record except the augmentation mark, same
/// output lines.
pub proof fn law_fallback_is_raw(
    b: AutoWireBridge,
    command: Seq<char>,
    succeeded: bool,
    stdout: Seq<char>,
    parsed: Option<AutoWireView>,
    out: Seq<Seq<char>>,
    run: ShellRun,
)
    requires
        !b.available() || !succeeded || parsed is None,
    ensures
        !b.available() ==> b.known_answer(command) is None,
        (!succeeded || parsed is None) ==> reply_answer(succeeded, stdout, parsed) is None,
        ran_command(command, None) == command,
        result_of(command, None, run).autowire_processed == false,
        output_after_run(out, run) + suggestion_lines(None) == output_after_run(out, run),
{
    assert(output_after_run(out, run) + suggestion_lines(None) =~= output_after_run(out, run));
}

proof fn lemma_history_prefix(ts: Seq<Terminal>, cs: Seq<Seq<char>>, j: int)
    requires
        ts.len() == cs.len() + 1,
        forall|k: int|
            0 <= k < cs.len() ==> ts[k + 1].history() == ts[k].history().push(#[trigger] cs[k]),
        0 <= j <= cs.len(),
    ensures
        ts[j].history() == ts[0].history() + cs.take(j),
    decreases j,
{
    if j == 0 {
        assert(ts[0].history() + cs.take(0) =~= ts[0].history());
    } else {
        lemma_history_prefix(ts, cs, j - 1);
        assert(ts[j].history() == ts[j - 1].history().push(cs[j - 1]));
        assert(ts[0].history() + cs.take(j) =~= (ts[0].history() + cs.take(j - 1)).push(cs[j - 1]));
    }
}

/// Each run (`execute_command`, or `complete_augmented` with the command that
/// ran) appends exactly its command to the history. So over terminal states
/// `ts[0]`, ..., `ts[N]` where each step is one run of `cs[k]`, the history
/// ends as the starting one followed by the N commands in call order; from a
/// new terminal it is exactly those N commands.
pub proof fn law_history_in_call_order(ts: Seq<Terminal>, cs: Seq<Seq<char>>)
    requires
        ts.len() == cs.len() + 1,
        forall|k: int|
            0 <= k < cs.len() ==> ts[k + 1].history() == ts[k].history().push(#[trigger] cs[k]),
    ensures
        ts.last().history() == ts[0].history() + cs,
        ts.last().history().len() == ts[0].history().len() + cs.len(),
        ts[0].history().len() == 0 ==> ts.last().history() == cs,
{
    lemma_history_prefix(ts, cs, cs.len() as int);
    assert(cs.take(cs.len() as int) =~= cs);
    if ts[0].history().len() == 0 {
        assert(ts[0].history() + cs =~= cs);
    }
}

} // verus!
