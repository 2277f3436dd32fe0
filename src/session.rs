use vstd::prelude::*;

verus! {

/// Width of the debounce window in milliseconds: a key press that arrives sooner
/// than this after the last acted-upon press is discarded.
pub const DEBOUNCE_MS: u64 = 300;

/// A key as the picker classifies it.
#[derive(Clone, Copy, PartialEq, Eq, Debug, Structural)]
pub enum Key {
    Up,
    Down,
    Enter,
    Esc,
    Other,
}

/// What the terminal driver reports to the picker. Times are milliseconds on a
/// monotonic clock.
#[derive(Clone, Copy, PartialEq, Eq, Debug, Structural)]
pub enum Event {
    /// The worker has taken its snapshot of the options and begins.
    Start,
    /// Raw mode was enabled at the given time.
    RawModeOn(u64),
    /// Enabling raw mode failed.
    RawModeRefused,
    /// A key was pressed at the given time.
    KeyPress(Key, u64),
    /// An input event that is not a key press.
    NonKey,
    /// Reading the next input event failed.
    ReadFailed,
    /// The work asked for by the last command is done.
    Handled,
}

/// What the terminal driver is to do next.
#[derive(Clone, Copy, PartialEq, Eq, Debug, Structural)]
pub enum Command {
    /// Print the notice that there is nothing to choose from, then stop.
    ShowEmpty,
    /// Enable raw mode and report the result.
    EnableRaw,
    /// Paint a frame with the highlight at the given index.
    Render(usize),
    /// Nothing to do: read the next input event.
    Wait,
    /// Print the confirmation line for the option at the given index, take its
    /// action out of the table and invoke it.
    Confirm(usize),
    /// Print the cancellation line.
    Cancel,
    /// Report the failed read.
    ReportReadFailure,
    /// Disable raw mode (a failure is only reported).
    DisableRaw,
    /// Stop: raw mode could not be enabled, nothing else is to be done.
    Stop,
}

/// Where a session stands.
#[derive(Clone, Copy, PartialEq, Eq, Debug, Structural)]
pub enum Phase {
    Uninitialized,
    Acquiring,
    Running,
    Releasing,
    Finished,
}

/// How a session ended, or `Pending` while it runs.
#[derive(Clone, Copy, PartialEq, Eq, Debug, Structural)]
pub enum Outcome {
    Pending,
    Confirmed,
    Canceled,
    EmptyNoOp,
    Aborted,
}

/// The decision state of one picker session over `len` options.
#[derive(Clone, Copy, PartialEq, Eq, Debug, Structural)]
pub struct Picker {
    pub len: usize,
    pub cursor: usize,
    pub last_ms: u64,
    pub phase: Phase,
    pub raw_on: bool,
    pub outcome: Outcome,
}

/// The time since `last`, zero when the clock reads earlier than `last`.
pub open spec fn elapsed(now: u64, last: u64) -> nat {
    if now >= last { (now - last) as nat } else { 0 }
}

/// The cursor after an arrow key, wrapping at both ends; other keys leave it.
pub open spec fn moved(cursor: nat, len: nat, key: Key) -> nat {
    match key {
        Key::Up => if cursor == 0 { (len - 1) as nat } else { (cursor - 1) as nat },
        Key::Down => (cursor + 1) % (len as int) as nat,
        _ => cursor,
    }
}

/// The state in which a session over `len` options begins.
pub open spec fn initial(len: usize) -> Picker {
    Picker {
        len,
        cursor: 0,
        last_ms: 0,
        phase: Phase::Uninitialized,
        raw_on: false,
        outcome: Outcome::Pending,
    }
}

/// The next state and the command for one event.
pub open spec fn next(s: Picker, ev: Event) -> (Picker, Command) {
    match (s.phase, ev) {
        (Phase::Uninitialized, Event::Start) => if s.len == 0 {
            (Picker { phase: Phase::Finished, outcome: Outcome::EmptyNoOp, ..s }, Command::ShowEmpty)
        } else {
            (Picker { phase: Phase::Acquiring, ..s }, Command::EnableRaw)
        },
        (Phase::Acquiring, Event::RawModeOn(t)) => (
            Picker { phase: Phase::Running, raw_on: true, cursor: 0, last_ms: t, ..s },
            Command::Render(0),
        ),
        (Phase::Acquiring, Event::RawModeRefused) => (
            Picker { phase: Phase::Finished, outcome: Outcome::Aborted, ..s },
            Command::Stop,
        ),
        (Phase::Running, Event::KeyPress(k, t)) => if elapsed(t, s.last_ms) < DEBOUNCE_MS {
            (s, Command::Wait)
        } else {
            match k {
                Key::Up | Key::Down => {
                    let c = moved(s.cursor as nat, s.len as nat, k) as usize;
                    (Picker { cursor: c, last_ms: t, ..s }, Command::Render(c))
                },
                Key::Enter => (
                    Picker {
                        phase: Phase::Releasing,
                        outcome: Outcome::Confirmed,
                        last_ms: t,
                        ..s
                    },
                    Command::Confirm(s.cursor),
                ),
                Key::Esc => (
                    Picker { phase: Phase::Releasing, outcome: Outcome::Canceled, last_ms: t, ..s },
                    Command::Cancel,
                ),
                Key::Other => (s, Command::Wait),
            }
        },
        (Phase::Running, Event::ReadFailed) => (
            Picker { phase: Phase::Releasing, outcome: Outcome::Aborted, ..s },
            Command::ReportReadFailure,
        ),
        (Phase::Releasing, _) => (
            Picker { phase: Phase::Finished, raw_on: false, ..s },
            Command::DisableRaw,
        ),
        _ => (s, Command::Wait),
    }
}

/// The state after feeding `evs` to `s` in order.
pub open spec fn run(s: Picker, evs: Seq<Event>) -> Picker
    decreases evs.len(),
{
    if evs.len() == 0 {
        s
    } else {
        run(next(s, evs[0]).0, evs.drop_first())
    }
}

/// Whether a session in this phase may still confirm or acquire.
pub open spec fn live(p: Phase) -> bool {
    p == Phase::Uninitialized || p == Phase::Acquiring || p == Phase::Running
}

/// How many `Confirm` commands feeding `evs` to `s` issues.
pub open spec fn confirms(s: Picker, evs: Seq<Event>) -> nat
    decreases evs.len(),
{
    if evs.len() == 0 {
        0
    } else {
        let (t, c) = next(s, evs[0]);
        (if c is Confirm { 1nat } else { 0nat }) + confirms(t, evs.drop_first())
    }
}

/// Whether every `Confirm` issued while feeding `evs` to `s` names one of the
/// `s.len` options.
pub open spec fn confirms_in_range(s: Picker, evs: Seq<Event>) -> bool
    decreases evs.len(),
{
    if evs.len() == 0 {
        true
    } else {
        let (t, c) = next(s, evs[0]);
        (c is Confirm ==> c->Confirm_0 < s.len) && confirms_in_range(t, evs.drop_first())
    }
}

/// How many steps of feeding `evs` to `s` acquire raw mode.
pub open spec fn enables(s: Picker, evs: Seq<Event>) -> nat
    decreases evs.len(),
{
    if evs.len() == 0 {
        0
    } else {
        let t = next(s, evs[0]).0;
        (if !s.raw_on && t.raw_on { 1nat } else { 0nat }) + enables(t, evs.drop_first())
    }
}

/// How many `DisableRaw` commands feeding `evs` to `s` issues.
pub open spec fn disables(s: Picker, evs: Seq<Event>) -> nat
    decreases evs.len(),
{
    if evs.len() == 0 {
        0
    } else {
        let (t, c) = next(s, evs[0]);
        (if c == Command::DisableRaw { 1nat } else { 0nat }) + disables(t, evs.drop_first())
    }
}

/// One step keeps a session well formed, never brings it back to life, confirms
/// only an existing option and only while live, and changes raw mode exactly
/// when it acquires it or issues `DisableRaw`.
pub proof fn lemma_next(s: Picker, ev: Event)
    requires
        s.wf(),
    ensures
        next(s, ev).0.wf(),
        next(s, ev).0.len == s.len,
        live(next(s, ev).0.phase) ==> live(s.phase),
        next(s, ev).1 is Confirm ==> live(s.phase) && !live(next(s, ev).0.phase)
            && next(s, ev).1->Confirm_0 < s.len,
        !s.raw_on && next(s, ev).0.raw_on ==> s.phase == Phase::Acquiring,
        next(s, ev).1 == Command::DisableRaw <==> (s.raw_on && !next(s, ev).0.raw_on),
{
}

proof fn lemma_run_invariants(s: Picker, evs: Seq<Event>)
    requires
        s.wf(),
    ensures
        run(s, evs).wf(),
        run(s, evs).len == s.len,
        confirms(s, evs) <= (if live(s.phase) { 1nat } else { 0nat }),
        confirms_in_range(s, evs),
        enables(s, evs) <= (if s.phase == Phase::Uninitialized || s.phase == Phase::Acquiring {
            1nat
        } else {
            0nat
        }),
        enables(s, evs) - disables(s, evs) == (if run(s, evs).raw_on { 1int } else { 0int }) - (
        if s.raw_on { 1int } else { 0int }),
    decreases evs.len(),
{
    if evs.len() > 0 {
        let t = next(s, evs[0]).0;
        lemma_next(s, evs[0]);
        lemma_run_invariants(t, evs.drop_first());
    }
}

/// Whatever events arrive, a session over `n` options invokes at most one action,
/// and only that of an option in the list.
pub proof fn lemma_at_most_one_action(n: usize, evs: Seq<Event>)
    ensures
        confirms(initial(n), evs) <= 1,
        confirms_in_range(initial(n), evs),
{
    lemma_run_invariants(initial(n), evs);
}

/// Whatever events arrive, raw mode is released at most once and only after it
/// was acquired, and a finished session has released it exactly when it had
/// acquired it.
pub proof fn lemma_raw_mode_balanced(n: usize, evs: Seq<Event>)
    ensures
        disables(initial(n), evs) <= enables(initial(n), evs) <= 1,
        run(initial(n), evs).phase == Phase::Finished ==> disables(initial(n), evs) == enables(
            initial(n),
            evs,
        ),
{
    lemma_run_invariants(initial(n), evs);
}

/// Whatever events arrive, the cursor of a session that holds the terminal
/// points at one of its options.
pub proof fn lemma_cursor_stays_in_range(n: usize, evs: Seq<Event>)
    ensures
        run(initial(n), evs).wf(),
        run(initial(n), evs).phase == Phase::Running ==> run(initial(n), evs).cursor < n,
{
    lemma_run_invariants(initial(n), evs);
}

/// Of two arrow presses, the second within the debounce window of the first
/// (which was acted upon), only the first changes the state.
pub proof fn lemma_debounce(s: Picker, k1: Key, t1: u64, k2: Key, t2: u64)
    requires
        s.wf(),
        s.phase == Phase::Running,
        k1 == Key::Up || k1 == Key::Down,
        elapsed(t1, s.last_ms) >= DEBOUNCE_MS,
        elapsed(t2, t1) < DEBOUNCE_MS,
    ensures
        next(s, Event::KeyPress(k1, t1)).0 != s,
        next(s, Event::KeyPress(k1, t1)).1 is Render,
        next(next(s, Event::KeyPress(k1, t1)).0, Event::KeyPress(k2, t2)) == (
        next(s, Event::KeyPress(k1, t1)).0,
        Command::Wait,
        ),
{
}

impl Picker {
    /// Well-formed: raw mode is held exactly while running or releasing, the
    /// cursor then points at an option (of which there is at least one once raw
    /// mode is asked for), and the outcome is settled once the
    /// session is past running.
    pub open spec fn wf(&self) -> bool {
        &&& self.raw_on == (self.phase == Phase::Running || self.phase == Phase::Releasing)
        &&& (self.phase == Phase::Running || self.phase == Phase::Releasing) ==> self.cursor
            < self.len
        &&& self.phase == Phase::Acquiring ==> self.len > 0
        &&& (self.outcome == Outcome::Pending) == (self.phase == Phase::Uninitialized
            || self.phase == Phase::Acquiring || self.phase == Phase::Running)
    }

    /// A session over `len` options, not yet started.
    pub fn new(len: usize) -> (r: Picker)
        ensures
            r == initial(len),
            r.wf(),
    {
        Picker {
            len,
            cursor: 0,
            last_ms: 0,
            phase: Phase::Uninitialized,
            raw_on: false,
            outcome: Outcome::Pending,
        }
    }

    /// Takes one event and says what the terminal driver does next.
    pub fn step(&mut self, ev: Event) -> (c: Command)
        requires
            old(self).wf(),
        ensures
            (*final(self), c) == next(*old(self), ev),
            final(self).wf(),
    {
        match (self.phase, ev) {
            (Phase::Uninitialized, Event::Start) => {
                if self.len == 0 {
                    self.phase = Phase::Finished;
                    self.outcome = Outcome::EmptyNoOp;
                    Command::ShowEmpty
                } else {
                    self.phase = Phase::Acquiring;
                    Command::EnableRaw
                }
            },
            (Phase::Acquiring, Event::RawModeOn(t)) => {
                self.phase = Phase::Running;
                self.raw_on = true;
                self.cursor = 0;
                self.last_ms = t;
                Command::Render(0)
            },
            (Phase::Acquiring, Event::RawModeRefused) => {
                self.phase = Phase::Finished;
                self.outcome = Outcome::Aborted;
                Command::Stop
            },
            (Phase::Running, Event::KeyPress(k, t)) => {
                if t.saturating_sub(self.last_ms) < DEBOUNCE_MS {
                    return Command::Wait;
                }
                match k {
                    Key::Up => {
                        self.cursor = if self.cursor == 0 { self.len - 1 } else { self.cursor - 1 };
                        self.last_ms = t;
                        Command::Render(self.cursor)
                    },
                    Key::Down => {
                        self.cursor = (self.cursor + 1) % self.len;
                        self.last_ms = t;
                        Command::Render(self.cursor)
                    },
                    Key::Enter => {
                        self.phase = Phase::Releasing;
                        self.outcome = Outcome::Confirmed;
                        self.last_ms = t;
                        Command::Confirm(self.cursor)
                    },
                    Key::Esc => {
                        self.phase = Phase::Releasing;
                        self.outcome = Outcome::Canceled;
                        self.last_ms = t;
                        Command::Cancel
                    },
                    Key::Other => Command::Wait,
                }
            },
            (Phase::Running, Event::ReadFailed) => {
                self.phase = Phase::Releasing;
                self.outcome = Outcome::Aborted;
                Command::ReportReadFailure
            },
            (Phase::Releasing, _) => {
                self.phase = Phase::Finished;
                self.raw_on = false;
                Command::DisableRaw
            },
            _ => Command::Wait,
        }
    }
}

} // verus!
