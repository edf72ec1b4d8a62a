use vstd::prelude::*;
use crate::record::{EventRecord, line_of, format_line};

verus! {

/// A queued instruction to the aggregator: append one record, or push the
/// buffered writes to stable storage.
pub enum Command {
    Log(EventRecord),
    Flush,
}

/// What the aggregator asks its caller to do with the output file after one
/// command: append a formatted line, flush the buffered writer (reporting how
/// many records the flush covers), or nothing at all.
pub enum Action {
    Append(String),
    Flush(usize),
    Nothing,
}

/// The mathematical state of the aggregator: how many records were buffered
/// since the last flush, every line appended to the write buffer so far, and
/// the prefix of those lines that has reached stable storage.
#[verifier::ext_equal]
pub ghost struct AggModel {
    pub pending: nat,
    pub buffered: Seq<Seq<char>>,
    pub durable: Seq<Seq<char>>,
}

/// What the aggregator's answer means: the line it appends, or how many
/// records a flush covers.
pub ghost enum ActionModel {
    Append(Seq<char>),
    Flush(nat),
    Nothing,
}

impl View for Action {
    type V = ActionModel;

    open spec fn view(&self) -> ActionModel {
        match self {
            Action::Append(s) => ActionModel::Append(s@),
            Action::Flush(n) => ActionModel::Flush(*n as nat),
            Action::Nothing => ActionModel::Nothing,
        }
    }
}

/// The state the aggregator starts from: nothing buffered, nothing durable.
pub open spec fn init_model() -> AggModel {
    AggModel { pending: 0, buffered: Seq::empty(), durable: Seq::empty() }
}

/// Every reachable aggregator state: the durable lines are a prefix of the
/// buffered ones, and exactly `pending` lines wait between the two.
pub open spec fn wf_model(s: AggModel) -> bool {
    &&& s.durable.is_prefix_of(s.buffered)
    &&& s.buffered.len() == s.durable.len() + s.pending
}

/// One transition of the aggregator: the state after a command and the action
/// the command provokes. A `Log` appends exactly one line and raises the
/// pending count by one; a `Flush` with nothing pending does nothing
/// observable; a `Flush` with pending records makes every buffered line
/// durable and reports how many records it covered.
pub open spec fn step(s: AggModel, c: Command) -> (AggModel, ActionModel) {
    match c {
        Command::Log(r) => (
            AggModel { pending: s.pending + 1, buffered: s.buffered.push(line_of(r)), durable: s.durable },
            ActionModel::Append(line_of(r)),
        ),
        Command::Flush => if s.pending == 0 {
            (s, ActionModel::Nothing)
        } else {
            (AggModel { pending: 0, buffered: s.buffered, durable: s.buffered }, ActionModel::Flush(s.pending))
        },
    }
}

/// The single-writer log aggregator. It owns the decision of what each
/// command does to the log file; the caller that owns the file handle carries
/// the returned `Action` out. The buffer and file contents appear here as
/// ghost state, so every contract speaks of the file the actions build.
pub struct Aggregator {
    pub pending_count: usize,
    pub buffered: Ghost<Seq<Seq<char>>>,
    pub durable: Ghost<Seq<Seq<char>>>,
}

impl Aggregator {
    /// The mathematical state this aggregator is in.
    pub open spec fn model(self) -> AggModel {
        AggModel {
            pending: self.pending_count as nat,
            buffered: self.buffered@,
            durable: self.durable@,
        }
    }

    pub open spec fn wf(self) -> bool {
        wf_model(self.model())
    }

    /// A fresh aggregator over an empty (or freshly opened, append-only)
    /// write buffer.
    pub fn new() -> (a: Aggregator)
        ensures
            a.wf(),
            a.model() == init_model(),
    {
        let a = Aggregator {
            pending_count: 0,
            buffered: Ghost(Seq::empty()),
            durable: Ghost(Seq::empty()),
        };
        proof {
            assert(a.model() =~= init_model());
        }
        a
    }

    /// Process exactly one command to completion: the executable form of
    /// `step`. Commands handed to consecutive calls are processed in that
    /// order, one at a time, so no two appends ever interleave.
    pub fn handle(&mut self, cmd: Command) -> (action: Action)
        requires
            old(self).wf(),
            cmd is Log ==> old(self).pending_count < usize::MAX,
        ensures
            final(self).wf(),
            final(self).model() == step(old(self).model(), cmd).0,
            action@ == step(old(self).model(), cmd).1,
    {
        match cmd {
            Command::Log(r) => {
                let line = format_line(&r);
                self.pending_count = self.pending_count + 1;
                proof {
                    self.buffered@ = self.buffered@.push(line_of(r));
                    assert(self.model() =~= step(old(self).model(), Command::Log(r)).0);
                    assert(self.model().durable.is_prefix_of(self.model().buffered));
                }
                Action::Append(line)
            },
            Command::Flush => {
                if self.pending_count == 0 {
                    proof {
                        assert(self.model() =~= step(old(self).model(), Command::Flush).0);
                    }
                    Action::Nothing
                } else {
                    let n = self.pending_count;
                    self.pending_count = 0;
                    proof {
                        self.durable@ = self.buffered@;
                        assert(self.model() =~= step(old(self).model(), Command::Flush).0);
                    }
                    Action::Flush(n)
                }
            },
        }
    }
}

/// What the flush ticker enqueues at each tick: always a `Flush`, never
/// anything that could write or reorder records.
pub fn ticker_command() -> (c: Command)
    ensures
        c is Flush,
{
    Command::Flush
}

} // verus!
