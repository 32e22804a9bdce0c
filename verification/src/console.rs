//! The lines of the debug console and of the serial traffic view.
use vstd::prelude::*;

use crate::settings::GuiSettingsContainer;
use crate::text::joined;

verus! {

/// A line of the debug console.
#[derive(Clone, Debug, PartialEq)]
pub enum Print {
    Empty,
    Message(String),
    Error(String),
    Debug(String),
    Success(String),
}

/// The colours the panels draw text and indicators in.
#[derive(Clone, Copy, Debug, PartialEq, Eq, Structural)]
pub enum UiColor {
    White,
    Black,
    Red,
    Yellow,
    LightRed,
    Green,
    DarkRed,
    DarkGreen,
}

/// A console line as it is shown: a label, the text, and its colour.
#[derive(Clone, Debug, PartialEq)]
pub struct ScrollAreaMessage {
    pub label: String,
    pub content: String,
    pub color: UiColor,
}

/// The label shown before a console line.
pub open spec fn print_label(p: Print) -> Seq<char> {
    match p {
        Print::Empty => Seq::empty(),
        Print::Message(_) => "[MSG] "@,
        Print::Error(_) => "[ERR] "@,
        Print::Debug(_) => "[DBG] "@,
        Print::Success(_) => "[OK] "@,
    }
}

/// The text of a console line.
pub open spec fn print_text(p: Print) -> Seq<char> {
    match p {
        Print::Empty => Seq::empty(),
        Print::Message(s) => s@,
        Print::Error(s) => s@,
        Print::Debug(s) => s@,
        Print::Success(s) => s@,
    }
}

/// The colour of a console line: messages are white on dark and black on
/// light backgrounds, errors red, debug output yellow on dark and light red on
/// light backgrounds, successes green.
pub open spec fn print_color(p: Print, dark_mode: bool) -> UiColor {
    match p {
        Print::Message(_) => if dark_mode {
            UiColor::White
        } else {
            UiColor::Black
        },
        Print::Error(_) => UiColor::Red,
        Print::Debug(_) => if dark_mode {
            UiColor::Yellow
        } else {
            UiColor::LightRed
        },
        _ => UiColor::Green,
    }
}

/// The shown lines of a console, each its label followed by its text; empty
/// entries show nothing.
pub open spec fn console_lines(ps: Seq<Print>) -> Seq<Seq<char>>
    decreases ps.len(),
{
    if ps.len() == 0 {
        Seq::empty()
    } else {
        let rest = console_lines(ps.drop_last());
        match ps.last() {
            Print::Empty => rest,
            p => rest.push(print_label(p) + print_text(p)),
        }
    }
}

impl Print {
    /// How this line is shown in the console, or `None` for an empty entry.
    pub fn scroll_area_message(&self, gui_conf: &GuiSettingsContainer) -> (r: Option<
        ScrollAreaMessage,
    >)
        ensures
            match *self {
                Print::Empty => r is None,
                _ => r is Some && r->0.label@ == print_label(*self) && r->0.content@ == print_text(
                    *self,
                ) && r->0.color == print_color(*self, gui_conf.dark_mode),
            },
    {
        match self {
            Print::Empty => None,
            Print::Message(s) => {
                let color = if gui_conf.dark_mode {
                    UiColor::White
                } else {
                    UiColor::Black
                };
                Some(ScrollAreaMessage { label: String::from_str("[MSG] "), content: s.clone(), color })
            },
            Print::Error(s) => {
                Some(
                    ScrollAreaMessage {
                        label: String::from_str("[ERR] "),
                        content: s.clone(),
                        color: UiColor::Red,
                    },
                )
            },
            Print::Debug(s) => {
                let color = if gui_conf.dark_mode {
                    UiColor::Yellow
                } else {
                    UiColor::LightRed
                };
                Some(ScrollAreaMessage { label: String::from_str("[DBG] "), content: s.clone(), color })
            },
            Print::Success(s) => {
                Some(
                    ScrollAreaMessage {
                        label: String::from_str("[OK] "),
                        content: s.clone(),
                        color: UiColor::Green,
                    },
                )
            },
        }
    }
}

/// The text of the debug console: the shown lines joined by line breaks.
pub fn console_log_text(console: &Vec<Print>, gui_conf: &GuiSettingsContainer) -> (r: String)
    ensures
        r@ == joined(console_lines(console@), "\n"@),
{
    let mut res = String::new();
    let mut any_line = false;
    let mut i: usize = 0;
    assert(console@.take(0) =~= Seq::<Print>::empty());
    while i < console.len()
        invariant
            i <= console@.len(),
            any_line == (console_lines(console@.take(i as int)).len() > 0),
            res@ == joined(console_lines(console@.take(i as int)), "\n"@),
        decreases console.len() - i,
    {
        let ghost lines = console_lines(console@.take(i as int));
        let ghost before = res@;
        assert(console@.take(i + 1).drop_last() =~= console@.take(i as int));
        assert(console@.take(i + 1).last() == console@[i as int]);
        match console[i].scroll_area_message(gui_conf) {
            None => {},
            Some(msg) => {
                let ghost line = print_label(console@[i as int]) + print_text(console@[i as int]);
                assert(lines.push(line).drop_last() =~= lines);
                if any_line {
                    res.append("\n");
                }
                res.append(msg.label.as_str());
                res.append(msg.content.as_str());
                any_line = true;
                proof {
                    if lines.len() > 0 {
                        assert(res@ =~= before + "\n"@ + line);
                    } else {
                        assert(res@ =~= line);
                    }
                }
            },
        }
        i = i + 1;
    }
    assert(console@.take(console@.len() as int) =~= console@);
    res
}

/// The direction of a packet on the serial line.
#[derive(Clone, Copy, Debug, PartialEq, Eq, Structural)]
pub enum SerialDirection {
    Send,
    Receive,
}

/// The name of a direction as the traffic view shows it.
pub open spec fn direction_name(d: SerialDirection) -> Seq<char> {
    match d {
        SerialDirection::Send => "SEND"@,
        SerialDirection::Receive => "RECV"@,
    }
}

impl SerialDirection {
    /// The name of the direction (see `direction_name`).
    pub fn name(&self) -> (r: &'static str)
        ensures
            r@ == direction_name(*self),
    {
        match self {
            SerialDirection::Send => "SEND",
            SerialDirection::Receive => "RECV",
        }
    }
}

/// A packet that went over the serial line, with its time in milliseconds
/// since the start of the recording and since the epoch.
#[derive(Clone, Debug, PartialEq)]
pub struct Packet {
    pub relative_time: u128,
    pub absolute_time: u128,
    pub direction: SerialDirection,
    pub payload: String,
}

/// Whether an entry shows a line in the console.
pub open spec fn shows_line() -> spec_fn(Print) -> bool {
    |p: Print| !(p is Empty)
}

/// The line an entry shows: its label followed by its text.
pub open spec fn line_of() -> spec_fn(Print) -> Seq<char> {
    |p: Print| print_label(p) + print_text(p)
}

/// The console shows one line per non-empty entry, in the order of the
/// entries, and none for an empty one: the lines are the non-empty entries,
/// each as its label followed by its text (a repeated entry shows again).
pub proof fn lemma_one_line_per_entry(ps: Seq<Print>)
    ensures
        console_lines(ps) == ps.filter(shows_line()).map_values(line_of()),
        console_lines(ps).len() == ps.filter(shows_line()).len(),
    decreases ps.len(),
{
    reveal(Seq::filter);
    if ps.len() > 0 {
        let rest = ps.drop_last();
        lemma_one_line_per_entry(rest);
        let kept = rest.filter(shows_line());
        if shows_line()(ps.last()) {
            assert(kept.push(ps.last()).map_values(line_of()) =~= kept.map_values(line_of()).push(
                line_of()(ps.last()),
            ));
        }
    }
}

/// Adding an entry to the console adds its line at the end, also where the
/// same line is already there; an empty entry adds nothing.
pub proof fn lemma_entry_adds_its_line(ps: Seq<Print>, p: Print)
    ensures
        !(p is Empty) ==> console_lines(ps.push(p)) == console_lines(ps).push(
            print_label(p) + print_text(p),
        ),
        p is Empty ==> console_lines(ps.push(p)) == console_lines(ps),
{
    assert(ps.push(p).drop_last() =~= ps);
}

/// Every entry shows its own text behind the label of its kind; errors are red
/// and successes green whatever the theme, messages white on dark and black on
/// light, debug output yellow on dark and light red on light.
pub proof fn lemma_entry_labels_and_colours(s: String, dark_mode: bool)
    ensures
        print_label(Print::Message(s)) == "[MSG] "@,
        print_label(Print::Error(s)) == "[ERR] "@,
        print_label(Print::Debug(s)) == "[DBG] "@,
        print_label(Print::Success(s)) == "[OK] "@,
        print_text(Print::Message(s)) == s@,
        print_text(Print::Error(s)) == s@,
        print_text(Print::Debug(s)) == s@,
        print_text(Print::Success(s)) == s@,
        print_color(Print::Error(s), dark_mode) == UiColor::Red,
        print_color(Print::Success(s), dark_mode) == UiColor::Green,
        print_color(Print::Message(s), dark_mode) == (if dark_mode {
            UiColor::White
        } else {
            UiColor::Black
        }),
        print_color(Print::Debug(s), dark_mode) == (if dark_mode {
            UiColor::Yellow
        } else {
            UiColor::LightRed
        }),
{
}

} // verus!
