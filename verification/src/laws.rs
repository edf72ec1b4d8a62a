use vstd::prelude::*;
use crate::record::{EventRecord, line_of};
use crate::aggregator::{Command, ActionModel, AggModel, step, wf_model};

verus! {

/// The aggregator run as a whole: the state reached after a sequence of
/// commands, processed one at a time in arrival order.
pub open spec fn run(s: AggModel, cmds: Seq<Command>) -> AggModel
    decreases cmds.len(),
{
    if cmds.len() == 0 {
        s
    } else {
        run(step(s, cmds[0]).0, cmds.drop_first())
    }
}

/// The lines that the `Log` commands of a sequence carry, in arrival order.
pub open spec fn lines_of(cmds: Seq<Command>) -> Seq<Seq<char>>
    decreases cmds.len(),
{
    if cmds.len() == 0 {
        Seq::empty()
    } else {
        match cmds[0] {
            Command::Log(r) => seq![line_of(r)] + lines_of(cmds.drop_first()),
            Command::Flush => lines_of(cmds.drop_first()),
        }
    }
}

/// A sequence of commands with no interleaved `Flush`.
pub open spec fn all_logs(cmds: Seq<Command>) -> bool {
    forall|i: int| 0 <= i < cmds.len() ==> cmds[i] is Log
}

/// Every record occupies one complete, newline-terminated line: the newline
/// the formatter appends is the line's final character, so a whole-line
/// append never leaves a truncated record in front of the next one.
pub proof fn lemma_line_terminated(r: EventRecord)
    ensures
        line_of(r).len() > 0,
        line_of(r).last() == '\n',
{
}

/// Every command preserves the aggregator's state invariant: the durable
/// lines stay a prefix of the buffered ones, with exactly `pending` lines
/// between the two.
pub proof fn lemma_step_wf(s: AggModel, c: Command)
    requires
        wf_model(s),
    ensures
        wf_model(step(s, c).0),
{
    match c {
        Command::Log(r) => {
            assert(step(s, c).0.buffered.subrange(0, s.durable.len() as int) =~= s.buffered.subrange(
                0,
                s.durable.len() as int,
            ));
        },
        Command::Flush => {
        },
    }
}

/// The invariant holds after any whole run from a state that satisfies it.
pub proof fn lemma_run_wf(s: AggModel, cmds: Seq<Command>)
    requires
        wf_model(s),
    ensures
        wf_model(run(s, cmds)),
    decreases cmds.len(),
{
    if cmds.len() > 0 {
        lemma_step_wf(s, cmds[0]);
        lemma_run_wf(step(s, cmds[0]).0, cmds.drop_first());
    }
}

/// Ordering: a run applies exactly the arrival order to the write buffer.
/// Whatever mix of producers enqueued the commands, the buffer afterwards is
/// what it held before, followed by each `Log` command's line in the order
/// the commands arrived — never reordered, never a partial line.
pub proof fn lemma_ordering(s: AggModel, cmds: Seq<Command>)
    ensures
        run(s, cmds).buffered == s.buffered + lines_of(cmds),
    decreases cmds.len(),
{
    if cmds.len() == 0 {
        assert(s.buffered + lines_of(cmds) =~= s.buffered);
    } else {
        lemma_ordering(step(s, cmds[0]).0, cmds.drop_first());
        match cmds[0] {
            Command::Log(r) => {
                assert(s.buffered.push(line_of(r)) + lines_of(cmds.drop_first()) =~= s.buffered
                    + lines_of(cmds));
            },
            Command::Flush => {
                assert(s.buffered + lines_of(cmds.drop_first()) =~= s.buffered + lines_of(cmds));
            },
        }
    }
}

/// Flush idempotence on an empty buffer: with nothing pending, a `Flush`
/// leaves the state exactly as it was — no flush event, no reset of an
/// already-zero counter, no change to what is durable.
pub proof fn lemma_flush_empty(s: AggModel)
    requires
        s.pending == 0,
    ensures
        step(s, Command::Flush).0 == s,
        step(s, Command::Flush).1 == ActionModel::Nothing,
{
}

/// Running `Log` commands alone raises the pending count by exactly their
/// number and flushes nothing.
pub proof fn lemma_logs_pending(s: AggModel, cmds: Seq<Command>)
    requires
        all_logs(cmds),
    ensures
        run(s, cmds).pending == s.pending + cmds.len(),
        run(s, cmds).durable == s.durable,
    decreases cmds.len(),
{
    if cmds.len() > 0 {
        assert(cmds[0] is Log);
        assert forall|i: int| 0 <= i < cmds.drop_first().len() implies cmds.drop_first()[i]
            is Log by {
            assert(cmds.drop_first()[i] == cmds[i + 1]);
        }
        lemma_logs_pending(step(s, cmds[0]).0, cmds.drop_first());
    }
}

/// Flush correctness: after N `Log` commands with no interleaved `Flush`,
/// starting from nothing pending, one `Flush` emits a flush event that
/// reports exactly N, and leaves the pending count at zero.
pub proof fn lemma_flush_reports(s: AggModel, cmds: Seq<Command>)
    requires
        s.pending == 0,
        all_logs(cmds),
        cmds.len() > 0,
    ensures
        step(run(s, cmds), Command::Flush).1 == ActionModel::Flush(cmds.len() as nat),
        step(run(s, cmds), Command::Flush).0.pending == 0,
{
    lemma_logs_pending(s, cmds);
}

/// After any `Flush` completes, the durable contents are exactly the lines
/// buffered before it — also when nothing was pending, since the two were
/// already equal.
pub proof fn lemma_flush_durable(s: AggModel)
    requires
        wf_model(s),
    ensures
        step(s, Command::Flush).0.durable == s.buffered,
{
    if s.pending == 0 {
        assert(s.buffered.subrange(0, s.durable.len() as int) =~= s.buffered);
        assert(s.durable =~= s.buffered);
    }
}

/// A run extended by one command is the run followed by one step.
pub proof fn lemma_run_snoc(s: AggModel, cmds: Seq<Command>, c: Command)
    ensures
        run(s, cmds.push(c)) == step(run(s, cmds), c).0,
    decreases cmds.len(),
{
    if cmds.len() == 0 {
        assert(cmds.push(c)[0] == c);
        assert(cmds.push(c).drop_first() =~= Seq::<Command>::empty());
        assert(run(s, cmds.push(c)) == run(step(s, c).0, Seq::<Command>::empty()));
    } else {
        assert(cmds.push(c)[0] == cmds[0]);
        assert(cmds.push(c).drop_first() =~= cmds.drop_first().push(c));
        assert(run(s, cmds.push(c)) == run(step(s, cmds[0]).0, cmds.drop_first().push(c)));
        lemma_run_snoc(step(s, cmds[0]).0, cmds.drop_first(), c);
    }
}

/// A `Log` command somewhere in a sequence contributes its line to the
/// sequence's lines.
pub proof fn lemma_lines_contains(cmds: Seq<Command>, i: int, r: EventRecord)
    requires
        0 <= i < cmds.len(),
        cmds[i] == Command::Log(r),
    ensures
        lines_of(cmds).contains(line_of(r)),
    decreases cmds.len(),
{
    if i == 0 {
        assert(lines_of(cmds)[0] == line_of(r));
    } else {
        lemma_lines_contains(cmds.drop_first(), i - 1, r);
        let k = choose|k: int|
            0 <= k < lines_of(cmds.drop_first()).len() && lines_of(cmds.drop_first())[k] == line_of(
                r,
            );
        match cmds[0] {
            Command::Log(r0) => {
                assert(lines_of(cmds)[k + 1] == line_of(r));
            },
            Command::Flush => {
                assert(lines_of(cmds)[k] == line_of(r));
            },
        }
    }
}

/// Durability boundary: a `Log` command processed strictly before a `Flush`
/// command is present in stable storage once that `Flush` completes.
pub proof fn lemma_durability_boundary(
    s: AggModel,
    cmds: Seq<Command>,
    i: int,
    j: int,
    r: EventRecord,
)
    requires
        wf_model(s),
        0 <= i < j < cmds.len(),
        cmds[i] == Command::Log(r),
        cmds[j] == Command::Flush,
    ensures
        run(s, cmds.take(j + 1)).durable.contains(line_of(r)),
{
    assert(cmds.take(j + 1) =~= cmds.take(j).push(cmds[j]));
    lemma_run_snoc(s, cmds.take(j), cmds[j]);
    lemma_run_wf(s, cmds.take(j));
    lemma_flush_durable(run(s, cmds.take(j)));
    lemma_ordering(s, cmds.take(j));
    assert(cmds.take(j)[i] == Command::Log(r));
    lemma_lines_contains(cmds.take(j), i, r);
    let k = choose|k: int|
        0 <= k < lines_of(cmds.take(j)).len() && lines_of(cmds.take(j))[k] == line_of(r);
    assert((s.buffered + lines_of(cmds.take(j)))[s.buffered.len() + k] == line_of(r));
}

} // verus!
