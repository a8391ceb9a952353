//! The line writer: the text of one rendered spinner line.
use colored::Colorize;
use vstd::prelude::*;

verus! {

/// The console stream that a spinner writes to.
#[derive(Clone, Copy, Debug, PartialEq, Eq, Structural)]
pub enum Stream {
    Stderr,
    Stdout,
}

impl Default for Stream {
    fn default() -> (r: Stream)
        ensures
            r == Stream::Stderr,
    {
        Stream::Stderr
    }
}

/// What a line shows: the animated state, or one of the four final ones.
#[derive(Clone, Copy, Debug, PartialEq, Eq, Structural)]
pub enum State {
    Loading,
    Info,
    Success,
    Warn,
    Error,
}

/// The foreground colours that icons are drawn in.
#[derive(Clone, Copy, Debug, PartialEq, Eq, Structural)]
pub enum Tint {
    Blue,
    Green,
    Yellow,
    Red,
}

pub open spec fn esc() -> char {
    '\u{1b}'
}

/// The SGR parameter that selects a tint as foreground colour.
pub open spec fn fg_code(t: Tint) -> Seq<char> {
    match t {
        Tint::Blue => seq!['3', '4'],
        Tint::Green => seq!['3', '2'],
        Tint::Yellow => seq!['3', '3'],
        Tint::Red => seq!['3', '1'],
    }
}

/// `text` between the escape sequence that selects `t` and the one that resets.
pub open spec fn painted(text: Seq<char>, t: Tint) -> Seq<char> {
    seq![esc(), '['] + fg_code(t) + seq!['m'] + text + seq![esc(), '[', '0', 'm']
}

/// What may stand for `text` drawn in `t`: the text as it is when colouring is
/// off, the coloured text when it is on. A text that holds an escape character
/// of its own is left open.
pub open spec fn shown(g: Seq<char>, text: Seq<char>, t: Tint) -> bool {
    ||| g == text
    ||| g == painted(text, t)
    ||| text.contains(esc())
}

/// Relies on colored's `Colorize` for `&str` and the `Display` of
/// `ColoredString`: with colouring off the text comes back as it is; with it
/// on, a text without a reset sequence of its own comes back between
/// `ESC [ <fg> m` and `ESC [ 0 m`. Whether colouring is on depends on the
/// environment and the terminal.
#[verifier::external_body]
fn paint(text: &str, t: Tint) -> (r: String)
    ensures
        shown(r@, text@, t),
{
    match t {
        Tint::Blue => text.blue().to_string(),
        Tint::Green => text.green().to_string(),
        Tint::Yellow => text.yellow().to_string(),
        Tint::Red => text.red().to_string(),
    }
}

/// The icon of a line: the frame glyph while loading, a fixed mark otherwise.
pub open spec fn icon_of(frame: Seq<char>, state: State) -> Seq<char> {
    match state {
        State::Loading => frame,
        State::Info => seq!['ℹ', '\u{fe0f}'],
        State::Success => seq!['✔'],
        State::Warn => seq!['⚠'],
        State::Error => seq!['✖'],
    }
}

pub open spec fn tint_of(state: State) -> Tint {
    match state {
        State::Loading => Tint::Blue,
        State::Info => Tint::Blue,
        State::Success => Tint::Green,
        State::Warn => Tint::Yellow,
        State::Error => Tint::Red,
    }
}

/// A loading line ends where it is, so that the next frame overwrites it; a
/// final line ends with a newline, so that it stays.
pub open spec fn line_end(state: State) -> Seq<char> {
    if state is Loading {
        Seq::empty()
    } else {
        seq!['\n']
    }
}

/// `\r<glyph> <message>`, then the end that `state` asks for.
pub open spec fn line_of(glyph: Seq<char>, message: Seq<char>, state: State) -> Seq<char> {
    seq!['\r'] + glyph + seq![' '] + message + line_end(state)
}

/// `line` is what the writer shows for `frame`, `message` and `state`, with
/// the icon coloured or not.
pub open spec fn renders(line: Seq<char>, frame: Seq<char>, message: Seq<char>, state: State) -> bool {
    exists|g: Seq<char>|
        shown(g, icon_of(frame, state), tint_of(state)) && line == line_of(g, message, state)
}

impl State {
    /// Whether this state ends an animation.
    pub open spec fn is_final(self) -> bool {
        !(self is Loading)
    }

    /// The icon that a line in this state starts with.
    pub fn icon<'a>(self, frame: &'a str) -> (r: &'a str)
        ensures
            r@ == icon_of(frame@, self),
    {
        match self {
            State::Loading => frame,
            State::Info => {
                proof {
                    reveal_strlit("ℹ️");
                }
                "ℹ️"
            },
            State::Success => {
                proof {
                    reveal_strlit("✔");
                }
                "✔"
            },
            State::Warn => {
                proof {
                    reveal_strlit("⚠");
                }
                "⚠"
            },
            State::Error => {
                proof {
                    reveal_strlit("✖");
                }
                "✖"
            },
        }
    }

    /// The colour that the icon is drawn in.
    pub fn tint(self) -> (r: Tint)
        ensures
            r == tint_of(self),
    {
        match self {
            State::Loading => Tint::Blue,
            State::Info => Tint::Blue,
            State::Success => Tint::Green,
            State::Warn => Tint::Yellow,
            State::Error => Tint::Red,
        }
    }
}

/// Lays out one line from an icon as it is to be shown.
pub fn compose_line(glyph: &str, message: &str, state: State) -> (r: String)
    ensures
        r@ == line_of(glyph@, message@, state),
{
    proof {
        reveal_strlit("\r");
        reveal_strlit(" ");
        reveal_strlit("\n");
    }
    let mut line = String::from_str("\r");
    line.append(glyph);
    line.append(" ");
    line.append(message);
    match state {
        State::Loading => {},
        _ => line.append("\n"),
    }
    assert(line@ =~= line_of(glyph@, message@, state));
    line
}

/// The text of one line: the icon for `state` (the frame glyph while loading)
/// in its colour, a space, the message, and a newline for a final state.
pub fn render_line(frame: &str, message: &str, state: State) -> (r: String)
    ensures
        renders(r@, frame@, message@, state),
{
    let glyph = paint(state.icon(frame), state.tint());
    compose_line(glyph.as_str(), message, state)
}

/// The colour sequences that a line may add hold no newline.
proof fn lemma_shown_has_no_newline(g: Seq<char>, text: Seq<char>, t: Tint)
    requires
        shown(g, text, t),
        !text.contains(esc()),
        !text.contains('\n'),
    ensures
        !g.contains('\n'),
{
    if g != text {
        let p = painted(text, t);
        let head = seq![esc(), '['] + fg_code(t) + seq!['m'];
        assert(p == head + text + seq![esc(), '[', '0', 'm']);
        assert forall|i: int| 0 <= i < p.len() implies p[i] != '\n' by {
            if i >= head.len() + text.len() {
                assert(p[i] == seq![esc(), '[', '0', 'm'][i - head.len() - text.len()]);
            } else if i >= head.len() {
                assert(p[i] == text[i - head.len()]);
            } else {
                assert(p[i] == head[i]);
            }
        }
    }
}

/// The fixed icons hold neither an escape character nor a newline.
proof fn lemma_final_icon_plain(frame: Seq<char>, state: State)
    requires
        state.is_final(),
    ensures
        !icon_of(frame, state).contains(esc()),
        !icon_of(frame, state).contains('\n'),
{
    let icon = icon_of(frame, state);
    assert forall|i: int| 0 <= i < icon.len() implies icon[i] != esc() && icon[i] != '\n' by {}
}

/// A line in a final state ends with a newline and holds no other, as long as
/// the message holds none: it stays on the console as exactly one line.
pub proof fn lemma_final_line_is_one_line(line: Seq<char>, frame: Seq<char>, message: Seq<char>, state: State)
    requires
        state.is_final(),
        renders(line, frame, message, state),
        !message.contains('\n'),
    ensures
        line.len() > 0,
        line.last() == '\n',
        forall|i: int| 0 <= i < line.len() - 1 ==> line[i] != '\n',
{
    let g = choose|g: Seq<char>|
        shown(g, icon_of(frame, state), tint_of(state)) && line == line_of(g, message, state);
    lemma_final_icon_plain(frame, state);
    lemma_shown_has_no_newline(g, icon_of(frame, state), tint_of(state));
    let body = seq!['\r'] + g + seq![' '] + message;
    assert(line == body + seq!['\n']);
    assert forall|i: int| 0 <= i < line.len() - 1 implies line[i] != '\n' by {
        assert(line[i] == body[i]);
        if i >= 2 + g.len() {
            assert(body[i] == message[i - 2 - g.len()]);
        } else if i >= 1 && i < 1 + g.len() {
            assert(body[i] == g[i - 1]);
        }
    }
}

/// A loading line holds no newline when neither its frame nor its message
/// does, and the frame has no escape character: the next frame overwrites it.
pub proof fn lemma_loading_line_stays_open(line: Seq<char>, frame: Seq<char>, message: Seq<char>)
    requires
        renders(line, frame, message, State::Loading),
        !frame.contains(esc()),
        !frame.contains('\n'),
        !message.contains('\n'),
    ensures
        forall|i: int| 0 <= i < line.len() ==> line[i] != '\n',
{
    let g = choose|g: Seq<char>|
        shown(g, icon_of(frame, State::Loading), tint_of(State::Loading)) && line == line_of(
            g,
            message,
            State::Loading,
        );
    lemma_shown_has_no_newline(g, frame, Tint::Blue);
    assert(line == seq!['\r'] + g + seq![' '] + message + Seq::<char>::empty());
    assert forall|i: int| 0 <= i < line.len() implies line[i] != '\n' by {
        if i >= 2 + g.len() {
            assert(line[i] == message[i - 2 - g.len()]);
        } else if i >= 1 && i < 1 + g.len() {
            assert(line[i] == g[i - 1]);
        }
    }
}

/// `part` stands whole in `line`, from position `k` on.
pub open spec fn holds_at(line: Seq<char>, part: Seq<char>, k: int) -> bool {
    0 <= k && k + part.len() <= line.len() && line.subrange(k, k + part.len()) == part
}

/// A rendered line shows its message whole.
pub proof fn lemma_line_shows_message(line: Seq<char>, frame: Seq<char>, message: Seq<char>, state: State)
    requires
        renders(line, frame, message, state),
    ensures
        exists|k: int| #[trigger] holds_at(line, message, k),
{
    let g = choose|g: Seq<char>|
        shown(g, icon_of(frame, state), tint_of(state)) && line == line_of(g, message, state);
    let k: int = 2 + g.len() as int;
    assert(line.subrange(k, k + message.len() as int) =~= message);
    assert(holds_at(line, message, k));
}

} // verus!
