//! The log sink's decision logic: what one process's output-event stream
//! contributes to its per-run log file.
//!
//! A sink reads events until the stream reports an error or the process's
//! termination, appending every output line — stripped of trailing
//! newlines — in the order produced. A failed file write stops that sink
//! (log loss is acceptable); each process has its own sink, so neither a
//! stream end nor a write failure can touch another sink or the registry.
use vstd::prelude::*;

verus! {

/// One event on a supervised process's output stream.
pub enum ProcessEvent {
    /// A line the process wrote to its standard output.
    StdoutLine(Vec<u8>),
    /// A line the process wrote to its standard error.
    StderrLine(Vec<u8>),
    /// The stream reported an error.
    StreamError,
    /// The process terminated with the given exit code and signal.
    Terminated { code: Option<i32>, signal: Option<i32> },
    /// Any other lifecycle event; ignored.
    Other,
}

/// What the sink does with one event.
pub enum SinkDirective {
    /// Append this newline-stripped line to the log file.
    Append(Vec<u8>),
    /// Nothing; keep reading.
    Skip,
    /// Log the event and stop reading.
    Stop,
}

/// Whether the event carries an output line.
pub open spec fn is_output(e: ProcessEvent) -> bool {
    ||| e is StdoutLine
    ||| e is StderrLine
}

/// The line an output event carries.
pub open spec fn output_payload(e: ProcessEvent) -> Seq<u8> {
    match e {
        ProcessEvent::StdoutLine(l) => l@,
        ProcessEvent::StderrLine(l) => l@,
        _ => Seq::<u8>::empty(),
    }
}

/// Whether the event ends the sink: a stream error or the process's
/// termination.
pub open spec fn stops_sink(e: ProcessEvent) -> bool {
    ||| e is StreamError
    ||| e is Terminated
}

/// `s` with every trailing newline byte removed.
pub open spec fn strip_trailing_newlines(s: Seq<u8>) -> Seq<u8>
    decreases s.len(),
{
    if s.len() > 0 && s.last() == 10u8 {
        strip_trailing_newlines(s.drop_last())
    } else {
        s
    }
}

/// The lines a sink appends for an event stream: every output line before
/// the first stream error or termination, newline-stripped, in order.
pub open spec fn sink_lines_spec(events: Seq<ProcessEvent>) -> Seq<Seq<u8>>
    decreases events.len(),
{
    if events.len() == 0 {
        Seq::<Seq<u8>>::empty()
    } else if stops_sink(events[0]) {
        Seq::<Seq<u8>>::empty()
    } else if is_output(events[0]) {
        seq![strip_trailing_newlines(output_payload(events[0]))] + sink_lines_spec(
            events.drop_first(),
        )
    } else {
        sink_lines_spec(events.drop_first())
    }
}

/// Copy `line` without its trailing newline bytes.
pub fn strip_newlines(line: &Vec<u8>) -> (r: Vec<u8>)
    ensures
        r@ == strip_trailing_newlines(line@),
{
    let mut end = line.len();
    proof {
        assert(line@.take(end as int) =~= line@);
    }
    while end > 0 && line[end - 1] == 10u8
        invariant
            0 <= end <= line@.len(),
            strip_trailing_newlines(line@.take(end as int)) == strip_trailing_newlines(line@),
        decreases end,
    {
        proof {
            assert(line@.take(end as int).last() == line@[end - 1]);
            assert(line@.take(end as int).drop_last() =~= line@.take(end as int - 1));
        }
        end -= 1;
    }
    let ghost kept = line@.take(end as int);
    proof {
        assert(strip_trailing_newlines(kept) == kept);
    }
    let mut r: Vec<u8> = Vec::new();
    let mut i: usize = 0;
    while i < end
        invariant
            0 <= i <= end <= line@.len(),
            r@ =~= line@.take(end as int).take(i as int),
        decreases end - i,
    {
        r.push(line[i]);
        proof {
            assert(r@ =~= line@.take(end as int).take(i as int + 1));
        }
        i += 1;
    }
    proof {
        assert(kept.take(end as int) =~= kept);
    }
    r
}

/// Decide what to do with one stream event: append the stripped line for an
/// output event, stop on a stream error or on termination, ignore the rest.
pub fn sink_step(event: &ProcessEvent) -> (d: SinkDirective)
    ensures
        stops_sink(*event) ==> d is Stop,
        is_output(*event) ==> (d matches SinkDirective::Append(l) && l@
            == strip_trailing_newlines(output_payload(*event))),
        !stops_sink(*event) && !is_output(*event) ==> d is Skip,
{
    match event {
        ProcessEvent::StdoutLine(l) => SinkDirective::Append(strip_newlines(l)),
        ProcessEvent::StderrLine(l) => SinkDirective::Append(strip_newlines(l)),
        ProcessEvent::StreamError => SinkDirective::Stop,
        ProcessEvent::Terminated { code: _, signal: _ } => SinkDirective::Stop,
        ProcessEvent::Other => SinkDirective::Skip,
    }
}

/// The lines a whole event stream contributes to the log file, in order.
pub fn sink_lines(events: &Vec<ProcessEvent>) -> (lines: Vec<Vec<u8>>)
    ensures
        lines@.map_values(|l: Vec<u8>| l@) == sink_lines_spec(events@),
{
    let mut lines: Vec<Vec<u8>> = Vec::new();
    let n = events.len();
    proof {
        assert(events@.skip(0) =~= events@);
    }
    let mut i: usize = 0;
    while i < n
        invariant
            0 <= i <= n,
            n == events@.len(),
            lines@.map_values(|l: Vec<u8>| l@) + sink_lines_spec(events@.skip(i as int))
                == sink_lines_spec(events@),
        decreases n - i,
    {
        let ghost rest = events@.skip(i as int);
        proof {
            assert(rest[0] == events@[i as int]);
            assert(rest.drop_first() =~= events@.skip(i as int + 1));
        }
        let ghost lines_pre = lines@.map_values(|l: Vec<u8>| l@);
        match sink_step(&events[i]) {
            SinkDirective::Append(l) => {
                lines.push(l);
                proof {
                    assert(lines@.map_values(|l: Vec<u8>| l@) =~= lines_pre.push(
                        strip_trailing_newlines(output_payload(rest[0])),
                    ));
                    assert(lines_pre.push(strip_trailing_newlines(output_payload(rest[0])))
                        + sink_lines_spec(rest.drop_first()) =~= lines_pre + (seq![
                        strip_trailing_newlines(output_payload(rest[0])),
                    ] + sink_lines_spec(rest.drop_first())));
                }
            },
            SinkDirective::Skip => {},
            SinkDirective::Stop => {
                proof {
                    assert(sink_lines_spec(rest) =~= Seq::<Seq<u8>>::empty());
                    assert(lines_pre + Seq::<Seq<u8>>::empty() =~= lines_pre);
                }
                return lines;
            },
        }
        i += 1;
    }
    proof {
        assert(events@.skip(n as int) =~= Seq::<ProcessEvent>::empty());
        assert(lines@.map_values(|l: Vec<u8>| l@) + Seq::<Seq<u8>>::empty() =~= lines@.map_values(
            |l: Vec<u8>| l@,
        ));
    }
    lines
}

/// One process's sink: stops for good on a stream end or a failed write,
/// and touches nothing but its own log file.
pub struct LogSink {
    stopped: bool,
}

impl LogSink {
    /// Whether this sink has stopped reading.
    pub closed spec fn is_stopped(&self) -> bool {
        self.stopped
    }

    /// A fresh sink, still reading.
    pub fn new() -> (s: Self)
        ensures
            !s.is_stopped(),
    {
        LogSink { stopped: false }
    }

    /// Handle one stream event: a stopped sink ignores it; otherwise decide
    /// as `sink_step` does, stopping on a stream error or termination.
    pub fn observe(&mut self, event: &ProcessEvent) -> (d: SinkDirective)
        ensures
            old(self).is_stopped() ==> d is Skip && final(self).is_stopped(),
            !old(self).is_stopped() ==> {
                &&& final(self).is_stopped() == stops_sink(*event)
                &&& (stops_sink(*event) ==> d is Stop)
                &&& (is_output(*event) ==> (d matches SinkDirective::Append(l) && l@
                    == strip_trailing_newlines(output_payload(*event))))
                &&& (!stops_sink(*event) && !is_output(*event) ==> d is Skip)
            },
    {
        if self.stopped {
            SinkDirective::Skip
        } else {
            let d = sink_step(event);
            if let SinkDirective::Stop = &d {
                self.stopped = true;
            }
            d
        }
    }

    /// Record the outcome of the append this sink asked for: a failed write
    /// stops the sink, and nothing un-stops it.
    pub fn note_write_result(&mut self, ok: bool)
        ensures
            final(self).is_stopped() == (old(self).is_stopped() || !ok),
    {
        if !ok {
            self.stopped = true;
        }
    }
}

/// How many output lines the first `events` hold.
pub open spec fn count_outputs(events: Seq<ProcessEvent>) -> nat
    decreases events.len(),
{
    if events.len() == 0 {
        0
    } else {
        (if is_output(events[0]) {
            1nat
        } else {
            0nat
        }) + count_outputs(events.drop_first())
    }
}

/// Every line a process writes before its stream ends appears in the log,
/// newline-stripped, at the position given by the number of lines written
/// before it — that is, in the order produced.
pub proof fn lemma_sink_preserves_every_line(events: Seq<ProcessEvent>, i: int)
    requires
        0 <= i < events.len(),
        is_output(events[i]),
        forall|j: int| 0 <= j <= i ==> !stops_sink(events[j]),
    ensures
        count_outputs(events.take(i)) < sink_lines_spec(events).len(),
        sink_lines_spec(events)[count_outputs(events.take(i)) as int] == strip_trailing_newlines(
            output_payload(events[i]),
        ),
    decreases i,
{
    assert(!stops_sink(events[0]));
    if i == 0 {
        assert(events.take(0) =~= Seq::<ProcessEvent>::empty());
    } else {
        let rest = events.drop_first();
        assert forall|j: int| 0 <= j <= i - 1 implies !stops_sink(rest[j]) by {
            assert(rest[j] == events[j + 1]);
        }
        assert(rest[i - 1] == events[i]);
        lemma_sink_preserves_every_line(rest, i - 1);
        assert(events.take(i).drop_first() =~= rest.take(i - 1));
        assert(events.take(i)[0] == events[0]);
        if is_output(events[0]) {
            assert(sink_lines_spec(events) == seq![
                strip_trailing_newlines(output_payload(events[0])),
            ] + sink_lines_spec(rest));
            assert(count_outputs(events.take(i)) == 1 + count_outputs(rest.take(i - 1)));
            assert(sink_lines_spec(events)[1 + count_outputs(rest.take(i - 1)) as int]
                == sink_lines_spec(rest)[count_outputs(rest.take(i - 1)) as int]);
        } else {
            assert(sink_lines_spec(events) == sink_lines_spec(rest));
            assert(count_outputs(events.take(i)) == count_outputs(rest.take(i - 1)));
        }
    }
}

} // verus!
