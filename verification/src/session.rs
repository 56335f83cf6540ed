//! Connection loop decisions. The loop owns the connection exclusively and
//! alternates a non-blocking read phase with a write phase that drains the
//! outgoing-line queue. The runtime performs the actual reads, writes and
//! mode switches; this module decides, from the observed events, which
//! console messages to submit, which lines to write and in what order, how
//! the connection's mode flag moves, and when the process ends.

use vstd::prelude::*;
use crate::msg::{Color, ConsoleMsg, Shutdown, is_exit, shows};

verus! {

/// The connection's single mode flag: one flag for the whole handle, so
/// the loop toggles it around each write burst.
#[derive(Clone, Copy, PartialEq, Eq, Structural, Debug)]
pub enum Mode {
    Blocking,
    NonBlocking,
}

/// Outcome of one non-blocking read attempt on the connection.
#[derive(Debug)]
pub enum ReadEvent {
    /// Zero bytes were read: the remote endpoint closed the stream.
    Eof,
    /// Some bytes were read; the text is the accumulated data.
    Data(String),
    /// No data was available right now.
    WouldBlock,
    /// The read failed for another reason; the text describes the error.
    Failed(String),
}

/// Outcome of one non-blocking poll of the outgoing-line queue.
#[derive(Debug)]
pub enum RecvEvent {
    /// A queued line, exactly as the producer submitted it.
    Line(String),
    /// The queue is currently empty.
    Empty,
    /// Every producer handle has been dropped.
    Disconnected,
}

/// What the read phase asks the runtime to do: submit these messages in
/// order, then terminate if `shutdown` is set.
pub struct ReadOutcome {
    pub msgs: Vec<ConsoleMsg>,
    pub shutdown: Option<Shutdown>,
    pub progress: bool,
}

/// Decide the read phase's response to one read outcome: end of stream
/// shows one cyan `EOF` line and ends the run successfully after a flush
/// pause; data becomes a blue `< ` marker followed by the data with a
/// trailing newline; an unavailable read does nothing at all; any other
/// read error shows one red line and ends the run the same way as EOF.
pub fn on_read(ev: ReadEvent) -> (o: ReadOutcome)
    ensures
        ev matches ReadEvent::Eof ==> o.msgs@.len() == 1 && shows(
            o.msgs@[0],
            Color::Cyan,
            "EOF\n"@,
        ) && is_exit(o.shutdown, 0, true),
        ev matches ReadEvent::Data(s) ==> o.msgs@.len() == 2 && shows(o.msgs@[0], Color::Blue, "< "@)
            && shows(o.msgs@[1], Color::Default, s@ + "\n"@) && o.shutdown is None,
        ev matches ReadEvent::WouldBlock ==> o.msgs@.len() == 0 && o.shutdown is None,
        ev matches ReadEvent::Failed(e) ==> o.msgs@.len() == 1 && shows(o.msgs@[0], Color::Red, e@)
            && is_exit(o.shutdown, 0, true),
        o.progress <==> ev matches ReadEvent::Data(_),
{
    match ev {
        ReadEvent::Eof => {
            let mut msgs: Vec<ConsoleMsg> = Vec::new();
            msgs.push(ConsoleMsg::new(Color::Cyan, String::from_str("EOF\n")));
            ReadOutcome { msgs, shutdown: Some(Shutdown::new(0, true)), progress: false }
        },
        ReadEvent::Data(s) => {
            let mut msgs: Vec<ConsoleMsg> = Vec::new();
            msgs.push(ConsoleMsg::new(Color::Blue, String::from_str("< ")));
            msgs.push(ConsoleMsg::new(Color::Default, s.concat("\n")));
            ReadOutcome { msgs, shutdown: None, progress: true }
        },
        ReadEvent::WouldBlock => {
            ReadOutcome { msgs: Vec::new(), shutdown: None, progress: false }
        },
        ReadEvent::Failed(e) => {
            let mut msgs: Vec<ConsoleMsg> = Vec::new();
            msgs.push(ConsoleMsg::new(Color::Red, e));
            ReadOutcome { msgs, shutdown: Some(Shutdown::new(0, true)), progress: false }
        },
    }
}

/// What one write-phase step asks the runtime to do, in this order: switch
/// the connection to blocking mode if `make_blocking`, write the whole of
/// `write` if it is set, terminate if `shutdown` is set, and end the drain
/// for this iteration if `stop`.
pub struct WriteStep {
    pub make_blocking: bool,
    pub write: Option<String>,
    pub shutdown: Option<Shutdown>,
    pub stop: bool,
}

/// Decide one write-phase step from one queue poll: a dequeued line is
/// written in full, exactly as submitted, after switching the connection
/// to blocking mode if it is not there already; an empty queue ends the
/// drain; a disconnected queue ends the run at once with success and no
/// message.
pub fn on_recv(ev: RecvEvent, mode: Mode) -> (s: WriteStep)
    ensures
        ev matches RecvEvent::Line(l) ==> (s.write matches Some(w) && w@ == l@)
            && s.make_blocking == !(mode is Blocking) && s.shutdown is None && !s.stop,
        ev matches RecvEvent::Empty ==> s.write is None && !s.make_blocking && s.shutdown is None
            && s.stop,
        ev matches RecvEvent::Disconnected ==> s.write is None && !s.make_blocking && is_exit(
            s.shutdown,
            0,
            false,
        ) && s.stop,
{
    match ev {
        RecvEvent::Line(l) => WriteStep {
            make_blocking: !(mode == Mode::Blocking),
            write: Some(l),
            shutdown: None,
            stop: false,
        },
        RecvEvent::Empty => WriteStep {
            make_blocking: false,
            write: None,
            shutdown: None,
            stop: true,
        },
        RecvEvent::Disconnected => WriteStep {
            make_blocking: false,
            write: None,
            shutdown: Some(Shutdown::new(0, false)),
            stop: true,
        },
    }
}

/// Decide the response to a failed connection write: the error is shown as
/// one red line and the run ends successfully after a flush pause.
pub fn on_write_error(err: String) -> (r: (ConsoleMsg, Shutdown))
    ensures
        shows(r.0, Color::Red, err@),
        r.1.code == 0,
        r.1.flush_pause,
{
    (ConsoleMsg::new(Color::Red, err), Shutdown::new(0, true))
}

/// The lines a run of queue polls delivers for writing: the payloads of
/// the leading `Line` events, in order, up to the first `Empty` or
/// `Disconnected`.
pub open spec fn pending_lines(evs: Seq<RecvEvent>) -> Seq<Seq<char>>
    decreases evs.len(),
{
    if evs.len() == 0 {
        Seq::empty()
    } else {
        match evs[0] {
            RecvEvent::Line(l) => seq![l@] + pending_lines(evs.drop_first()),
            _ => Seq::empty(),
        }
    }
}

/// Whether a run of queue polls reaches `Disconnected` before it reaches
/// `Empty` or runs out.
pub open spec fn sees_disconnect(evs: Seq<RecvEvent>) -> bool
    decreases evs.len(),
{
    if evs.len() == 0 {
        false
    } else {
        match evs[0] {
            RecvEvent::Line(_) => sees_disconnect(evs.drop_first()),
            RecvEvent::Disconnected => true,
            RecvEvent::Empty => false,
        }
    }
}

/// What one write phase asks of the runtime: write these lines in this
/// order, leave the connection in `mode`, terminate if `shutdown` is set.
pub struct DrainOutcome {
    pub writes: Vec<String>,
    pub mode: Mode,
    pub shutdown: Option<Shutdown>,
    pub progress: bool,
}

/// Drain one write phase: process the queue polls of one iteration, in
/// order, up to the first `Empty` or `Disconnected`.
///
/// Every line the input reader submitted before the drain stopped is
/// written exactly once, whole, and in submission order — no line is
/// dropped, split, duplicated or reordered. After at least one line the
/// connection is back in non-blocking mode for the next read phase; a
/// disconnected queue ends the run at once with success.
pub fn drain(evs: &Vec<RecvEvent>, start: Mode) -> (r: DrainOutcome)
    ensures
        r.writes@.map_values(|l: String| l@) == pending_lines(evs@),
        r.shutdown is Some <==> sees_disconnect(evs@),
        sees_disconnect(evs@) ==> is_exit(r.shutdown, 0, false),
        r.progress <==> pending_lines(evs@).len() > 0,
        r.progress ==> r.mode == Mode::NonBlocking,
        !r.progress ==> r.mode == start,
{
    let mut writes: Vec<String> = Vec::new();
    let mut mode = start;
    let mut shutdown: Option<Shutdown> = None;
    let mut stopped = false;
    let mut i: usize = 0;
    proof {
        assert(evs@.skip(0) =~= evs@);
        assert(writes@.map_values(|l: String| l@) + pending_lines(evs@) =~= pending_lines(evs@));
    }
    while !stopped && i < evs.len()
        invariant
            i <= evs.len(),
            writes@.map_values(|l: String| l@) + pending_lines(evs@.skip(i as int)) == pending_lines(
                evs@,
            ),
            !stopped ==> sees_disconnect(evs@) == sees_disconnect(evs@.skip(i as int)),
            !stopped ==> shutdown is None,
            stopped ==> pending_lines(evs@.skip(i as int)) == Seq::<Seq<char>>::empty(),
            stopped ==> (shutdown is Some <==> sees_disconnect(evs@)),
            shutdown is Some ==> is_exit(shutdown, 0, false),
            writes@.len() > 0 ==> mode == Mode::Blocking,
            writes@.len() == 0 ==> mode == start,
        decreases evs.len() - i, (if stopped { 0int } else { 1int }),
    {
        proof {
            assert(evs@.skip(i as int)[0] == evs@[i as int]);
            assert(evs@.skip(i as int).drop_first() =~= evs@.skip(i as int + 1));
        }
        match &evs[i] {
            RecvEvent::Line(l) => {
                if !(mode == Mode::Blocking) {
                    mode = Mode::Blocking;
                }
                let ghost prev = writes@;
                writes.push(l.clone());
                proof {
                    assert(writes@.map_values(|x: String| x@) =~= prev.map_values(|x: String| x@)
                        + seq![l@]);
                }
            },
            RecvEvent::Empty => {
                stopped = true;
            },
            RecvEvent::Disconnected => {
                shutdown = Some(Shutdown::new(0, false));
                stopped = true;
            },
        }
        if !stopped {
            i = i + 1;
        }
    }
    proof {
        if !stopped {
            assert(evs@.skip(i as int) =~= Seq::<RecvEvent>::empty());
        }
        assert(writes@.map_values(|l: String| l@) + Seq::<Seq<char>>::empty() =~= writes@.map_values(
            |l: String| l@,
        ));
    }
    let progress = writes.len() > 0;
    if progress {
        mode = Mode::NonBlocking;
    }
    DrainOutcome { writes, mode, shutdown, progress }
}

/// What one full loop iteration asks of the runtime, in this order: submit
/// `msgs`, then — unless `shutdown` came from the read phase — switch to
/// blocking mode, write the lines of `writes` whole and in order, and
/// switch back, leaving the connection in `mode`; terminate if `shutdown`
/// is set; yield the processor if `yield_now`.
pub struct IterOutcome {
    pub msgs: Vec<ConsoleMsg>,
    pub writes: Vec<String>,
    pub mode: Mode,
    pub shutdown: Option<Shutdown>,
    pub yield_now: bool,
}

/// Decide one full iteration of the connection loop from its observed
/// events: the read phase first, then — whenever the read phase did not
/// end the run — the write phase.
///
/// An unavailable read produces no console message and never keeps the
/// write phase from running in the same iteration; end of stream produces
/// exactly one `EOF` message and ends the run with success; the processor
/// is yielded exactly when neither phase made progress and the run goes
/// on.
pub fn iteration(read_ev: ReadEvent, recv_evs: &Vec<RecvEvent>, mode: Mode) -> (r: IterOutcome)
    ensures
        read_ev matches ReadEvent::Eof ==> r.msgs@.len() == 1 && shows(
            r.msgs@[0],
            Color::Cyan,
            "EOF\n"@,
        ) && is_exit(r.shutdown, 0, true) && r.writes@.len() == 0,
        read_ev matches ReadEvent::Failed(e) ==> r.msgs@.len() == 1 && shows(
            r.msgs@[0],
            Color::Red,
            e@,
        ) && is_exit(r.shutdown, 0, true) && r.writes@.len() == 0,
        read_ev matches ReadEvent::WouldBlock ==> r.msgs@.len() == 0 && r.writes@.map_values(
            |l: String| l@,
        ) == pending_lines(recv_evs@),
        read_ev matches ReadEvent::Data(s) ==> r.msgs@.len() == 2 && shows(
            r.msgs@[0],
            Color::Blue,
            "< "@,
        ) && shows(r.msgs@[1], Color::Default, s@ + "\n"@) && r.writes@.map_values(|l: String| l@)
            == pending_lines(recv_evs@),
        (read_ev matches ReadEvent::WouldBlock || read_ev matches ReadEvent::Data(_)) ==> {
            &&& (r.shutdown is Some <==> sees_disconnect(recv_evs@))
            &&& (sees_disconnect(recv_evs@) ==> is_exit(r.shutdown, 0, false))
            &&& (pending_lines(recv_evs@).len() > 0 ==> r.mode == Mode::NonBlocking)
            &&& (pending_lines(recv_evs@).len() == 0 ==> r.mode == mode)
        },
        r.yield_now <==> (read_ev matches ReadEvent::WouldBlock && pending_lines(
            recv_evs@,
        ).len() == 0 && !sees_disconnect(recv_evs@)),
{
    let o = on_read(read_ev);
    if o.shutdown.is_some() {
        IterOutcome {
            msgs: o.msgs,
            writes: Vec::new(),
            mode,
            shutdown: o.shutdown,
            yield_now: false,
        }
    } else {
        let d = drain(recv_evs, mode);
        let idle = !o.progress && !d.progress && d.shutdown.is_none();
        IterOutcome {
            msgs: o.msgs,
            writes: d.writes,
            mode: d.mode,
            shutdown: d.shutdown,
            yield_now: idle,
        }
    }
}

/// The lines a whole run of write phases delivers for writing: the
/// submitted lines of each phase in turn, stopping after the first phase
/// whose queue polls reach `Disconnected`.
pub open spec fn run_lines(phases: Seq<Vec<RecvEvent>>) -> Seq<Seq<char>>
    decreases phases.len(),
{
    if phases.len() == 0 {
        Seq::empty()
    } else if sees_disconnect(phases[0]@) {
        pending_lines(phases[0]@)
    } else {
        pending_lines(phases[0]@) + run_lines(phases.drop_first())
    }
}

/// Whether some phase of the run observes a disconnected queue.
pub open spec fn run_disconnects(phases: Seq<Vec<RecvEvent>>) -> bool
    decreases phases.len(),
{
    if phases.len() == 0 {
        false
    } else {
        sees_disconnect(phases[0]@) || run_disconnects(phases.drop_first())
    }
}

/// Run successive write phases until the queue disconnects or the phases
/// run out: phase `k` observes the queue polls `phases[k]`.
///
/// Submission order is preserved across the whole run, not only within
/// one phase: the lines written are the lines submitted before each
/// phase's drain stopped, in phase order and in submission order within
/// each phase, each exactly once and whole. The run ends early exactly
/// when some phase finds every producer handle dropped.
pub fn run_write_phases(phases: &Vec<Vec<RecvEvent>>, start: Mode) -> (r: (Vec<String>, bool))
    ensures
        r.0@.map_values(|l: String| l@) == run_lines(phases@),
        r.1 <==> run_disconnects(phases@),
{
    let mut writes: Vec<String> = Vec::new();
    let mut mode = start;
    let mut done = false;
    let mut k: usize = 0;
    proof {
        assert(phases@.skip(0) =~= phases@);
        assert(writes@.map_values(|l: String| l@) + run_lines(phases@) =~= run_lines(phases@));
    }
    while !done && k < phases.len()
        invariant
            k <= phases.len(),
            !done ==> writes@.map_values(|l: String| l@) + run_lines(phases@.skip(k as int))
                == run_lines(phases@),
            !done ==> run_disconnects(phases@) == run_disconnects(phases@.skip(k as int)),
            done ==> writes@.map_values(|l: String| l@) == run_lines(phases@),
            done ==> run_disconnects(phases@),
        decreases phases.len() - k, (if done { 0int } else { 1int }),
    {
        proof {
            assert(phases@.skip(k as int)[0] == phases@[k as int]);
            assert(phases@.skip(k as int).drop_first() =~= phases@.skip(k as int + 1));
        }
        let mut d = drain(&phases[k], mode);
        mode = d.mode;
        let ghost prev = writes@;
        let ghost dw = d.writes@;
        writes.append(&mut d.writes);
        proof {
            assert(writes@ =~= prev + dw);
            assert(writes@.map_values(|l: String| l@) =~= prev.map_values(|l: String| l@)
                + dw.map_values(|l: String| l@));
        }
        if d.shutdown.is_some() {
            done = true;
        } else {
            proof {
                assert(writes@.map_values(|l: String| l@) + run_lines(phases@.skip(k as int + 1))
                    =~= run_lines(phases@));
            }
            k = k + 1;
        }
    }
    proof {
        if !done {
            assert(phases@.skip(k as int) =~= Seq::<Vec<RecvEvent>>::empty());
            assert(writes@.map_values(|l: String| l@) + Seq::<Seq<char>>::empty() =~= writes@
                .map_values(|l: String| l@));
        }
    }
    (writes, done)
}

/// The text the console shows as incoming payload: the concatenation of
/// the default-colored texts among `msgs`, in order. The colored markers
/// around them are not payload.
pub open spec fn payload_concat(msgs: Seq<ConsoleMsg>) -> Seq<char>
    decreases msgs.len(),
{
    if msgs.len() == 0 {
        Seq::empty()
    } else if msgs[0].color is Default {
        msgs[0].text@ + payload_concat(msgs.drop_first())
    } else {
        payload_concat(msgs.drop_first())
    }
}

/// The concatenation of `chunks` with a newline after each chunk: the
/// inbound bytes, interrupted only at the buffering points.
pub open spec fn newline_joined(chunks: Seq<Seq<char>>) -> Seq<char>
    decreases chunks.len(),
{
    if chunks.len() == 0 {
        Seq::empty()
    } else {
        chunks[0] + "\n"@ + newline_joined(chunks.drop_first())
    }
}

/// Payload concatenation distributes over appending message runs.
pub proof fn lemma_payload_concat_app(a: Seq<ConsoleMsg>, b: Seq<ConsoleMsg>)
    ensures
        payload_concat(a + b) == payload_concat(a) + payload_concat(b),
    decreases a.len(),
{
    if a.len() == 0 {
        assert(a + b =~= b);
        assert(payload_concat(a) + payload_concat(b) =~= payload_concat(b));
    } else {
        lemma_payload_concat_app(a.drop_first(), b);
        assert((a + b).drop_first() =~= a.drop_first() + b);
        if a[0].color is Default {
            assert(a[0].text@ + (payload_concat(a.drop_first()) + payload_concat(b)) =~= (a[0].text@
                + payload_concat(a.drop_first())) + payload_concat(b));
        }
    }
}

/// Appending one more chunk appends its text and one newline.
pub proof fn lemma_newline_joined_push(chunks: Seq<Seq<char>>, c: Seq<char>)
    ensures
        newline_joined(chunks.push(c)) == newline_joined(chunks) + c + "\n"@,
    decreases chunks.len(),
{
    if chunks.len() == 0 {
        assert(chunks.push(c).drop_first() =~= Seq::<Seq<char>>::empty());
        assert(chunks.push(c)[0] == c);
        assert(newline_joined(Seq::<Seq<char>>::empty()) == Seq::<char>::empty());
        assert(newline_joined(chunks) == Seq::<char>::empty());
        assert(newline_joined(chunks.push(c)) =~= newline_joined(chunks) + c + "\n"@);
    } else {
        lemma_newline_joined_push(chunks.drop_first(), c);
        assert(chunks.push(c).drop_first() =~= chunks.drop_first().push(c));
        assert(chunks.push(c)[0] == chunks[0]);
        assert(newline_joined(chunks.push(c)) == chunks[0] + "\n"@ + newline_joined(
            chunks.drop_first().push(c),
        ));
        assert(newline_joined(chunks.push(c)) =~= newline_joined(chunks) + c + "\n"@);
    }
}

/// Chunk `j` of `chunks` is rendered at its place in `msgs`: one blue
/// `< ` marker, then one default-colored message holding exactly the
/// chunk and a trailing newline.
pub open spec fn chunk_rendered(msgs: Seq<ConsoleMsg>, chunks: Seq<String>, j: int) -> bool {
    shows(msgs[2 * j], Color::Blue, "< "@) && shows(
        msgs[2 * j + 1],
        Color::Default,
        chunks[j]@ + "\n"@,
    )
}

/// Relay a run of inbound chunks through the read phase, one iteration
/// per chunk, and collect the console messages it produces.
///
/// Nothing is lost and nothing is reordered: each chunk becomes one blue
/// `< ` marker and one default-colored message holding exactly that chunk
/// and a trailing newline, in arrival order, so the payload the console
/// shows is the concatenation of the inbound chunks, interrupted only at
/// the buffering points.
pub fn relay_inbound(chunks: &Vec<String>) -> (msgs: Vec<ConsoleMsg>)
    ensures
        msgs@.len() == 2 * chunks@.len(),
        forall|i: int| 0 <= i < chunks@.len() ==> #[trigger] chunk_rendered(msgs@, chunks@, i),
        payload_concat(msgs@) == newline_joined(chunks@.map_values(|c: String| c@)),
{
    let mut msgs: Vec<ConsoleMsg> = Vec::new();
    let mut i: usize = 0;
    proof {
        assert(chunks@.take(0).map_values(|c: String| c@) =~= Seq::<Seq<char>>::empty());
    }
    while i < chunks.len()
        invariant
            i <= chunks.len(),
            msgs@.len() == 2 * i,
            forall|j: int| 0 <= j < i ==> #[trigger] chunk_rendered(msgs@, chunks@, j),
            payload_concat(msgs@) == newline_joined(chunks@.take(i as int).map_values(
                |c: String| c@,
            )),
        decreases chunks.len() - i,
    {
        let ghost prev = msgs@;
        let mut o = on_read(ReadEvent::Data(chunks[i].clone()));
        let marker = o.msgs.remove(0);
        let payload = o.msgs.remove(0);
        proof {
            assert(shows(marker, Color::Blue, "< "@));
            assert(shows(payload, Color::Default, chunks@[i as int]@ + "\n"@));
        }
        msgs.push(marker);
        msgs.push(payload);
        proof {
            assert(msgs@ =~= prev + seq![marker, payload]);
            assert(msgs@[2 * (i as int)] == marker);
            assert(msgs@[2 * (i as int) + 1] == payload);
            assert forall|j: int|
                0 <= j < i as int + 1 implies #[trigger] chunk_rendered(msgs@, chunks@, j) by {
                if j < i as int {
                    assert(chunk_rendered(prev, chunks@, j));
                    assert(msgs@[2 * j] == prev[2 * j]);
                    assert(msgs@[2 * j + 1] == prev[2 * j + 1]);
                }
            }
            lemma_payload_concat_app(prev, seq![marker, payload]);
            assert(seq![marker, payload].drop_first() =~= seq![payload]);
            assert(seq![payload].drop_first() =~= Seq::<ConsoleMsg>::empty());
            assert(payload_concat(Seq::<ConsoleMsg>::empty()) == Seq::<char>::empty());
            assert(payload_concat(seq![payload]) == payload.text@ + payload_concat(
                seq![payload].drop_first(),
            ));
            assert(payload_concat(seq![payload]) =~= payload.text@);
            assert(payload_concat(seq![marker, payload]) == payload_concat(
                seq![marker, payload].drop_first(),
            ));
            assert(payload_concat(seq![marker, payload]) =~= payload.text@);
            lemma_newline_joined_push(
                chunks@.take(i as int).map_values(|c: String| c@),
                chunks@[i as int]@,
            );
            assert(chunks@.take(i as int + 1).map_values(|c: String| c@) =~= chunks@.take(
                i as int,
            ).map_values(|c: String| c@).push(chunks@[i as int]@));
            assert(payload_concat(msgs@) =~= newline_joined(chunks@.take(i as int + 1).map_values(
                |c: String| c@,
            )));
        }
        i = i + 1;
    }
    proof {
        assert(chunks@.take(chunks@.len() as int) =~= chunks@);
    }
    msgs
}

} // verus!
