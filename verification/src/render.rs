//! The pure projection of the application state into a frame.
//!
//! A frame is the drawable content of one loop iteration: the static
//! title and instruction lines, and a value line showing the current
//! counter.  Producing a frame reads the state and nothing else, so
//! the same state always yields the same frame; the unverified shell
//! turns the frame into styled terminal widgets.

use vstd::prelude::*;
use vstd::string::StringExecFns;

use crate::state::App;

verus! {

/// The decimal digit character for `d`.
pub open spec fn digit_char(d: nat) -> char {
    if d == 0 {
        '0'
    } else if d == 1 {
        '1'
    } else if d == 2 {
        '2'
    } else if d == 3 {
        '3'
    } else if d == 4 {
        '4'
    } else if d == 5 {
        '5'
    } else if d == 6 {
        '6'
    } else if d == 7 {
        '7'
    } else if d == 8 {
        '8'
    } else {
        '9'
    }
}

/// The usual decimal rendering of `n`: no leading zeroes, except
/// that zero itself is written "0".
pub open spec fn decimal_of(n: nat) -> Seq<char>
    decreases n,
{
    if n < 10 {
        seq![digit_char(n)]
    } else {
        decimal_of(n / 10) + seq![digit_char(n % 10)]
    }
}

/// The single-character string for a decimal digit.
fn digit_str(d: u8) -> (r: &'static str)
    requires
        d < 10,
    ensures
        r@ == seq![digit_char(d as nat)],
{
    proof {
        reveal_strlit("0");
        reveal_strlit("1");
        reveal_strlit("2");
        reveal_strlit("3");
        reveal_strlit("4");
        reveal_strlit("5");
        reveal_strlit("6");
        reveal_strlit("7");
        reveal_strlit("8");
        reveal_strlit("9");
    }
    match d {
        0 => "0",
        1 => "1",
        2 => "2",
        3 => "3",
        4 => "4",
        5 => "5",
        6 => "6",
        7 => "7",
        8 => "8",
        _ => "9",
    }
}

/// The decimal rendering of `n`, as `decimal_of` describes it.
pub fn decimal_string(n: u8) -> (r: String)
    ensures
        r@ == decimal_of(n as nat),
    decreases n,
{
    if n < 10 {
        digit_str(n).to_owned()
    } else {
        let prefix = decimal_string(n / 10);
        prefix.concat(digit_str(n % 10))
    }
}

/// The drawable content of one frame, as plain text lines.  Styling
/// and layout are the unverified shell's business.
#[derive(Debug)]
pub struct RenderedFrame {
    /// The title shown over the top border.
    pub title: String,
    /// The key bindings shown under the bottom border.
    pub instructions: String,
    /// The line showing the current counter value.
    pub value_line: String,
}

/// The mathematical content of a frame: each line as a sequence of
/// characters.
pub struct FrameView {
    pub title: Seq<char>,
    pub instructions: Seq<char>,
    pub value_line: Seq<char>,
}

impl View for RenderedFrame {
    type V = FrameView;

    open spec fn view(&self) -> FrameView {
        FrameView {
            title: self.title@,
            instructions: self.instructions@,
            value_line: self.value_line@,
        }
    }
}

impl PartialEq for RenderedFrame {
    fn eq(&self, other: &RenderedFrame) -> (r: bool) {
        self.title == other.title && self.instructions == other.instructions
            && self.value_line == other.value_line
    }
}

impl vstd::std_specs::cmp::PartialEqSpecImpl for RenderedFrame {
    open spec fn obeys_eq_spec() -> bool {
        true
    }

    open spec fn eq_spec(&self, other: &RenderedFrame) -> bool {
        self@ == other@
    }
}

/// The frame a given state projects to.
pub open spec fn frame_of(s: App) -> FrameView {
    FrameView {
        title: " Counter App Tutorial "@,
        instructions: " Decrement <Left> Increment <Right> Quit <Q> "@,
        value_line: "Value: "@ + decimal_of(s.counter as nat),
    }
}

impl App {
    /// Produce the frame for the current state.  Rendering reads the
    /// state and nothing else: the result is exactly `frame_of` the
    /// state, so it never mutates anything and two renderings of one
    /// state are identical.
    pub fn render_frame(&self) -> (r: RenderedFrame)
        ensures
            r@ == frame_of(*self),
    {
        let mut value_line = "Value: ".to_owned();
        value_line.append(decimal_string(self.counter).as_str());
        RenderedFrame {
            title: " Counter App Tutorial ".to_owned(),
            instructions: " Decrement <Left> Increment <Right> Quit <Q> ".to_owned(),
            value_line,
        }
    }
}

/// Frame purity: rendering is a function of the state alone, so any
/// two frames produced from the same state have identical content.
pub proof fn lemma_frame_purity(s: App, f1: RenderedFrame, f2: RenderedFrame)
    requires
        f1@ == frame_of(s),
        f2@ == frame_of(s),
    ensures
        f1@ == f2@,
{
}

} // verus!
