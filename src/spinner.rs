//! The spinner controller and its animation task, as state machines.
//!
//! A `Spinner` holds the message and whether an animation task runs. Each of
//! its operations returns what the caller must do: start a task, hand a
//! control message to the running one and wait for it, or print a final line
//! itself. An `Animation` is the state of one task: on each tick it is told
//! what a non-blocking receive gave and answers with what to draw.
use crate::stream::{State, Stream};
use vstd::prelude::*;

verus! {

/// How many glyphs the animation cycles through.
pub const FRAME_COUNT: usize = 10;

/// The glyph of frame `i` of the cycle.
pub open spec fn frame_glyph(i: int) -> Seq<char> {
    if i == 0 {
        seq!['⠋']
    } else if i == 1 {
        seq!['⠙']
    } else if i == 2 {
        seq!['⠹']
    } else if i == 3 {
        seq!['⠸']
    } else if i == 4 {
        seq!['⠼']
    } else if i == 5 {
        seq!['⠴']
    } else if i == 6 {
        seq!['⠦']
    } else if i == 7 {
        seq!['⠧']
    } else if i == 8 {
        seq!['⠇']
    } else {
        seq!['⠏']
    }
}

/// The glyph of frame `i`.
pub fn frame(i: usize) -> (r: &'static str)
    requires
        i < FRAME_COUNT,
    ensures
        r@ == frame_glyph(i as int),
{
    if i == 0 {
        proof { reveal_strlit("⠋"); }
        "⠋"
    } else if i == 1 {
        proof { reveal_strlit("⠙"); }
        "⠙"
    } else if i == 2 {
        proof { reveal_strlit("⠹"); }
        "⠹"
    } else if i == 3 {
        proof { reveal_strlit("⠸"); }
        "⠸"
    } else if i == 4 {
        proof { reveal_strlit("⠼"); }
        "⠼"
    } else if i == 5 {
        proof { reveal_strlit("⠴"); }
        "⠴"
    } else if i == 6 {
        proof { reveal_strlit("⠦"); }
        "⠦"
    } else if i == 7 {
        proof { reveal_strlit("⠧"); }
        "⠧"
    } else if i == 8 {
        proof { reveal_strlit("⠇"); }
        "⠇"
    } else {
        proof { reveal_strlit("⠏"); }
        "⠏"
    }
}

/// The message that a spinner built without one shows.
pub open spec fn default_message() -> Seq<char> {
    seq!['L', 'o', 'a', 'd', 'i', 'n', 'g', '.', '.', '.']
}

pub open spec fn text_of(o: Option<&str>) -> Option<Seq<char>> {
    match o {
        Some(s) => Some(s@),
        None => None,
    }
}

/// The message that an operation uses: its argument, else the stored one.
pub open spec fn resolve(arg: Option<Seq<char>>, stored: Seq<char>) -> Seq<char> {
    match arg {
        Some(m) => m,
        None => stored,
    }
}

pub struct ControlView {
    pub state: State,
    pub message: Seq<char>,
}

/// The control message that stops a task without a final line.
pub open spec fn halt_note() -> ControlView {
    ControlView { state: State::Loading, message: Seq::empty() }
}

/// A request from the controller to its task: draw `message` in the final
/// `state` and end, or, with `State::Loading`, end without drawing.
pub struct Control {
    pub state: State,
    pub message: String,
}

impl View for Control {
    type V = ControlView;

    open spec fn view(&self) -> ControlView {
        ControlView { state: self.state, message: self.message@ }
    }
}

pub enum PollView {
    Message(ControlView),
    Empty,
    Disconnected,
}

/// What a non-blocking receive on the task's channel gave.
pub enum Poll {
    /// A control message.
    Message(Control),
    /// Nothing yet.
    Empty,
    /// The sending side is gone.
    Disconnected,
}

impl View for Poll {
    type V = PollView;

    open spec fn view(&self) -> PollView {
        match self {
            Poll::Message(c) => PollView::Message(c@),
            Poll::Empty => PollView::Empty,
            Poll::Disconnected => PollView::Disconnected,
        }
    }
}

pub enum TickView {
    Frame { glyph: Seq<char>, message: Seq<char> },
    Finish(ControlView),
    Quit,
}

/// What a task does on one tick.
pub enum Tick {
    /// Draw a loading line with this glyph and message, sleep, and go on.
    Frame { glyph: String, message: String },
    /// Draw the final line that the control message asks for, and end.
    Finish(Control),
    /// End without drawing.
    Quit,
}

impl View for Tick {
    type V = TickView;

    open spec fn view(&self) -> TickView {
        match self {
            Tick::Frame { glyph, message } => TickView::Frame { glyph: glyph@, message: message@ },
            Tick::Finish(c) => TickView::Finish(c@),
            Tick::Quit => TickView::Quit,
        }
    }
}

pub struct AnimationView {
    pub frame: int,
    pub message: Seq<char>,
    pub stream: Stream,
    pub done: bool,
}

impl AnimationView {
    pub open spec fn wf(self) -> bool {
        0 <= self.frame < FRAME_COUNT
    }

    pub open spec fn ended(self) -> AnimationView {
        AnimationView { done: true, ..self }
    }

    /// One tick: an ended task does nothing; a control message or a closed
    /// channel ends it, drawing a final line only for a final state; with
    /// nothing received it draws the current frame and moves to the next.
    pub open spec fn step(self, p: PollView) -> (AnimationView, TickView) {
        if self.done {
            (self, TickView::Quit)
        } else {
            match p {
                PollView::Message(c) => if c.state.is_final() {
                    (self.ended(), TickView::Finish(c))
                } else {
                    (self.ended(), TickView::Quit)
                },
                PollView::Disconnected => (self.ended(), TickView::Quit),
                PollView::Empty => (
                    AnimationView { frame: (self.frame + 1) % (FRAME_COUNT as int), ..self },
                    TickView::Frame { glyph: frame_glyph(self.frame), message: self.message },
                ),
            }
        }
    }
}

/// What a task draws over a run of ticks.
pub open spec fn run(a: AnimationView, polls: Seq<PollView>) -> Seq<TickView>
    decreases polls.len(),
{
    if polls.len() == 0 {
        Seq::empty()
    } else {
        let (next, t) = a.step(polls[0]);
        seq![t] + run(next, polls.drop_first())
    }
}

/// The state of one animation task.
pub struct Animation {
    frame: usize,
    message: String,
    stream: Stream,
    done: bool,
}

impl View for Animation {
    type V = AnimationView;

    closed spec fn view(&self) -> AnimationView {
        AnimationView {
            frame: self.frame as int,
            message: self.message@,
            stream: self.stream,
            done: self.done,
        }
    }
}

impl Animation {
    /// The stream that the task draws on.
    pub fn stream(&self) -> (r: Stream)
        ensures
            r == self@.stream,
    {
        self.stream
    }

    /// Whether the task has ended.
    pub fn is_done(&self) -> (r: bool)
        ensures
            r == self@.done,
    {
        self.done
    }

    /// Decides one tick from what the receive gave.
    pub fn tick(&mut self, poll: Poll) -> (r: Tick)
        requires
            old(self)@.wf(),
        ensures
            final(self)@.wf(),
            (final(self)@, r@) == old(self)@.step(poll@),
    {
        if self.done {
            return Tick::Quit;
        }
        match poll {
            Poll::Message(c) => {
                self.done = true;
                match c.state {
                    State::Loading => Tick::Quit,
                    _ => Tick::Finish(c),
                }
            },
            Poll::Disconnected => {
                self.done = true;
                Tick::Quit
            },
            Poll::Empty => {
                let glyph = String::from_str(frame(self.frame));
                let message = self.message.clone();
                self.frame = if self.frame + 1 == FRAME_COUNT {
                    0
                } else {
                    self.frame + 1
                };
                Tick::Frame { glyph, message }
            },
        }
    }
}

pub struct SpinnerView {
    pub message: Seq<char>,
    pub stream: Stream,
    pub animating: bool,
}

pub enum DirectiveView {
    Signal(ControlView),
    Print(ControlView),
}

impl DirectiveView {
    pub open spec fn note(self) -> ControlView {
        match self {
            DirectiveView::Signal(c) => c,
            DirectiveView::Print(c) => c,
        }
    }
}

/// What the caller must do for a final status.
pub enum Directive {
    /// A task runs: send it this control message, then wait until it ends.
    Signal(Control),
    /// No task runs: draw this final line directly.
    Print(Control),
}

impl View for Directive {
    type V = DirectiveView;

    open spec fn view(&self) -> DirectiveView {
        match self {
            Directive::Signal(c) => DirectiveView::Signal(c@),
            Directive::Print(c) => DirectiveView::Print(c@),
        }
    }
}

/// What the caller must do to start an animation: first stop the task that
/// runs, if any, by sending `halt` and waiting for it; then run `animation`.
pub struct Launch {
    pub halt: Option<Control>,
    pub animation: Animation,
}

pub open spec fn note_of(o: Option<Control>) -> Option<ControlView> {
    match o {
        Some(c) => Some(c@),
        None => None,
    }
}

/// A spinner that was just built: idle, on standard error.
pub open spec fn fresh(arg: Option<Seq<char>>) -> SpinnerView {
    SpinnerView { message: resolve(arg, default_message()), stream: Stream::Stderr, animating: false }
}

impl SpinnerView {
    /// Starting stops the running task, if any, and starts a new one with the
    /// resolved message, which becomes the stored one.
    pub open spec fn start(self, arg: Option<Seq<char>>) -> (
        SpinnerView,
        Option<ControlView>,
        AnimationView,
    ) {
        let m = resolve(arg, self.message);
        (
            SpinnerView { message: m, animating: true, ..self },
            if self.animating {
                Some(halt_note())
            } else {
                None
            },
            AnimationView { frame: 0, message: m, stream: self.stream, done: false },
        )
    }

    /// A final status goes to the running task, or is drawn directly when
    /// none runs; either way no task runs afterwards.
    pub open spec fn finish(self, state: State, arg: Option<Seq<char>>) -> (
        SpinnerView,
        DirectiveView,
    ) {
        let note = ControlView { state, message: resolve(arg, self.message) };
        (
            SpinnerView { animating: false, ..self },
            if self.animating {
                DirectiveView::Signal(note)
            } else {
                DirectiveView::Print(note)
            },
        )
    }

    /// Tearing down stops the running task, if any, without a final line.
    pub open spec fn teardown(self) -> (SpinnerView, Option<ControlView>) {
        (
            SpinnerView { animating: false, ..self },
            if self.animating {
                Some(halt_note())
            } else {
                None
            },
        )
    }
}

/// The controller of a terminal spinner.
pub struct Spinner {
    message: String,
    stream: Stream,
    animating: bool,
}

impl View for Spinner {
    type V = SpinnerView;

    closed spec fn view(&self) -> SpinnerView {
        SpinnerView { message: self.message@, stream: self.stream, animating: self.animating }
    }
}

fn halt() -> (r: Control)
    ensures
        r@ == halt_note(),
{
    Control { state: State::Loading, message: String::new() }
}

impl Spinner {
    /// Creates a spinner with a message, "Loading..." when none is given.
    /// It starts idle: nothing is drawn until `start` or a final status.
    pub fn new(message: Option<&str>) -> (r: Spinner)
        ensures
            r@ == fresh(text_of(message)),
    {
        let message = match message {
            Some(m) => String::from_str(m),
            None => {
                proof {
                    reveal_strlit("Loading...");
                }
                let m = String::from_str("Loading...");
                assert(m@ =~= default_message());
                m
            },
        };
        Spinner { message, stream: Stream::Stderr, animating: false }
    }

    /// The stored message.
    pub fn message(&self) -> (r: &str)
        ensures
            r@ == self@.message,
    {
        self.message.as_str()
    }

    /// The stream that the spinner draws on.
    pub fn stream(&self) -> (r: Stream)
        ensures
            r == self@.stream,
    {
        self.stream
    }

    /// Whether an animation task runs.
    pub fn is_animating(&self) -> (r: bool)
        ensures
            r == self@.animating,
    {
        self.animating
    }

    fn resolved(&self, message: Option<&str>) -> (r: String)
        ensures
            r@ == resolve(text_of(message), self@.message),
    {
        match message {
            Some(m) => String::from_str(m),
            None => self.message.clone(),
        }
    }

    /// Starts the animation with a message, by default the stored one. A
    /// given message becomes the stored one.
    pub fn start(&mut self, message: Option<&str>) -> (r: Launch)
        ensures
            (final(self)@, note_of(r.halt), r.animation@) == old(self)@.start(text_of(message)),
            r.animation@.wf(),
    {
        let m = self.resolved(message);
        let halt = if self.animating {
            Some(halt())
        } else {
            None
        };
        let animation = Animation { frame: 0, message: m.clone(), stream: self.stream, done: false };
        self.message = m;
        self.animating = true;
        Launch { halt, animation }
    }

    fn finish(&mut self, state: State, message: Option<&str>) -> (r: Directive)
        ensures
            (final(self)@, r@) == old(self)@.finish(state, text_of(message)),
    {
        let control = Control { state, message: self.resolved(message) };
        if self.animating {
            self.animating = false;
            Directive::Signal(control)
        } else {
            Directive::Print(control)
        }
    }

    /// Ends with an info line, by default with the stored message.
    pub fn info(&mut self, message: Option<&str>) -> (r: Directive)
        ensures
            (final(self)@, r@) == old(self)@.finish(State::Info, text_of(message)),
    {
        self.finish(State::Info, message)
    }

    /// Ends with a success line, by default with the stored message.
    pub fn success(&mut self, message: Option<&str>) -> (r: Directive)
        ensures
            (final(self)@, r@) == old(self)@.finish(State::Success, text_of(message)),
    {
        self.finish(State::Success, message)
    }

    /// Ends with a warning line, by default with the stored message.
    pub fn warning(&mut self, message: Option<&str>) -> (r: Directive)
        ensures
            (final(self)@, r@) == old(self)@.finish(State::Warn, text_of(message)),
    {
        self.finish(State::Warn, message)
    }

    /// Ends with an error line, by default with the stored message.
    pub fn error(&mut self, message: Option<&str>) -> (r: Directive)
        ensures
            (final(self)@, r@) == old(self)@.finish(State::Error, text_of(message)),
    {
        self.finish(State::Error, message)
    }

    /// What must happen before the spinner goes away: the control message
    /// that stops the running task, if one runs.
    pub fn teardown(&mut self) -> (r: Option<Control>)
        ensures
            (final(self)@, note_of(r)) == old(self)@.teardown(),
    {
        if self.animating {
            self.animating = false;
            Some(halt())
        } else {
            None
        }
    }
}

} // verus!
