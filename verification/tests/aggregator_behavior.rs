use eventlog::aggregator::{Action, Aggregator, Command, ticker_command};
use eventlog::record::EventRecord;

fn rec(install: &str, session: &str, seq: usize, time: &str, msg: &str) -> EventRecord {
    EventRecord {
        install_id: install.to_string(),
        session_id: session.to_string(),
        seq,
        time: time.to_string(),
        msg: msg.to_string(),
    }
}

/// A stand-in for the output file: appends go to a process-level buffer, a
/// flush moves the buffer to stable storage and records the reported count.
struct FileSim {
    buffer: Vec<String>,
    stable: String,
    flush_events: Vec<usize>,
}

impl FileSim {
    fn new() -> FileSim {
        FileSim { buffer: Vec::new(), stable: String::new(), flush_events: Vec::new() }
    }

    fn apply(&mut self, action: Action) {
        match action {
            Action::Append(line) => self.buffer.push(line),
            Action::Flush(n) => {
                for line in self.buffer.drain(..) {
                    self.stable.push_str(&line);
                }
                self.flush_events.push(n);
            }
            Action::Nothing => {}
        }
    }
}

fn drive(agg: &mut Aggregator, sim: &mut FileSim, commands: Vec<Command>) {
    for command in commands {
        let action = agg.handle(command);
        sim.apply(action);
    }
}

#[test]
fn scenario_two_records_then_flush() {
    let mut agg = Aggregator::new();
    let mut sim = FileSim::new();
    drive(
        &mut agg,
        &mut sim,
        vec![
            Command::Log(rec("dev1", "s1", 0, "t0", "hello")),
            Command::Log(rec("dev1", "s1", 1, "t1", "world")),
            Command::Flush,
        ],
    );
    assert_eq!(sim.stable, "[t0] dev1::s1::0 > hello\n[t1] dev1::s1::1 > world\n");
    assert_eq!(sim.flush_events, vec![2]);
    assert_eq!(agg.pending_count, 0);
}

#[test]
fn scenario_flush_without_submissions() {
    let mut agg = Aggregator::new();
    let mut sim = FileSim::new();
    drive(&mut agg, &mut sim, vec![Command::Flush]);
    assert_eq!(sim.stable, "");
    assert!(sim.flush_events.is_empty());
    assert_eq!(agg.pending_count, 0);
}

#[test]
fn flush_on_empty_buffer_is_idempotent() {
    let mut agg = Aggregator::new();
    let mut sim = FileSim::new();
    drive(
        &mut agg,
        &mut sim,
        vec![
            Command::Log(rec("d", "s", 0, "t", "m")),
            Command::Flush,
            Command::Flush,
            Command::Flush,
        ],
    );
    // Only the first flush covered records; the later two were no-ops.
    assert_eq!(sim.flush_events, vec![1]);
    assert_eq!(agg.pending_count, 0);
    assert_eq!(sim.stable, "[t] d::s::0 > m\n");
}

#[test]
fn flush_reports_exact_count() {
    let mut agg = Aggregator::new();
    let mut sim = FileSim::new();
    let mut commands = Vec::new();
    for i in 0..5 {
        commands.push(Command::Log(rec("dev", "s", i, "t", "m")));
    }
    commands.push(Command::Flush);
    drive(&mut agg, &mut sim, commands);
    assert_eq!(sim.flush_events, vec![5]);
    assert_eq!(agg.pending_count, 0);
}

#[test]
fn pending_count_tracks_logs_since_flush() {
    let mut agg = Aggregator::new();
    let mut sim = FileSim::new();
    assert_eq!(agg.pending_count, 0);
    sim.apply(agg.handle(Command::Log(rec("d", "s", 0, "t", "a"))));
    assert_eq!(agg.pending_count, 1);
    sim.apply(agg.handle(Command::Log(rec("d", "s", 1, "t", "b"))));
    assert_eq!(agg.pending_count, 2);
    sim.apply(agg.handle(Command::Flush));
    assert_eq!(agg.pending_count, 0);
    sim.apply(agg.handle(Command::Log(rec("d", "s", 2, "t", "c"))));
    assert_eq!(agg.pending_count, 1);
}

#[test]
fn ordering_preserved_across_flushes() {
    let mut agg = Aggregator::new();
    let mut sim = FileSim::new();
    drive(
        &mut agg,
        &mut sim,
        vec![
            Command::Log(rec("a", "s", 0, "t0", "one")),
            Command::Flush,
            Command::Log(rec("b", "s", 0, "t1", "two")),
            Command::Log(rec("a", "s", 1, "t2", "three")),
            Command::Flush,
        ],
    );
    assert_eq!(
        sim.stable,
        "[t0] a::s::0 > one\n[t1] b::s::0 > two\n[t2] a::s::1 > three\n"
    );
    assert_eq!(sim.flush_events, vec![1, 2]);
}

#[test]
fn durability_boundary_between_flushes() {
    let mut agg = Aggregator::new();
    let mut sim = FileSim::new();
    drive(
        &mut agg,
        &mut sim,
        vec![Command::Log(rec("d", "s", 0, "t0", "early")), Command::Flush],
    );
    // Processed strictly before the flush: present in stable storage.
    assert_eq!(sim.stable, "[t0] d::s::0 > early\n");
    // Enqueued after the flush: buffered, not yet durable.
    drive(&mut agg, &mut sim, vec![Command::Log(rec("d", "s", 1, "t1", "late"))]);
    assert_eq!(sim.stable, "[t0] d::s::0 > early\n");
    assert_eq!(agg.pending_count, 1);
    drive(&mut agg, &mut sim, vec![Command::Flush]);
    assert_eq!(sim.stable, "[t0] d::s::0 > early\n[t1] d::s::1 > late\n");
}

#[test]
fn ticker_always_requests_flush() {
    for _ in 0..3 {
        assert!(matches!(ticker_command(), Command::Flush));
    }
}

#[test]
fn many_producers_interleaved() {
    // Ten producers, one hundred records each, enqueued round-robin: the
    // aggregator sees one arrival order and applies exactly that order.
    let producers = 10;
    let per_producer = 100;
    let mut agg = Aggregator::new();
    let mut sim = FileSim::new();
    for seq in 0..per_producer {
        for p in 0..producers {
            let action = agg.handle(Command::Log(rec(
                &format!("dev{}", p),
                "s",
                seq,
                "t",
                &format!("msg {} {}", p, seq),
            )));
            sim.apply(action);
        }
    }
    sim.apply(agg.handle(Command::Flush));
    assert_eq!(sim.flush_events, vec![producers * per_producer]);

    let lines: Vec<&str> = sim.stable.split_inclusive('\n').collect();
    assert_eq!(lines.len(), producers * per_producer);
    for line in &lines {
        // Every stored line is complete: one trailing newline, none inside.
        assert!(line.ends_with('\n'));
        assert_eq!(line.matches('\n').count(), 1);
    }
    for p in 0..producers {
        // Each producer's own records appear in its submission order.
        let prefix = format!("[t] dev{}::s::", p);
        let seqs: Vec<usize> = lines
            .iter()
            .filter(|line| line.starts_with(&prefix))
            .map(|line| {
                line[prefix.len()..]
                    .split(' ')
                    .next()
                    .unwrap()
                    .parse()
                    .unwrap()
            })
            .collect();
        let expected: Vec<usize> = (0..per_producer).collect();
        assert_eq!(seqs, expected);
    }
}
