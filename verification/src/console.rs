//! The console's record and the ways of writing to it.

use std::fmt::Debug;
use std::fmt::Write;
use vstd::prelude::*;

verus! {

/// What a console has received so far.
///
/// Its view is the sequence of the lines delivered, oldest first, each line as
/// the sequence of its characters. A line may be empty; an empty line is a
/// delivery like any other.
pub struct Console {
    lines: Vec<String>,
}

impl View for Console {
    type V = Seq<Seq<char>>;

    closed spec fn view(&self) -> Seq<Seq<char>> {
        self.lines@.map_values(|line: String| line@)
    }
}

/// `after` holds every line of `before`, in the same places, and exactly one
/// line more, at its end.
pub open spec fn one_delivery(before: Seq<Seq<char>>, after: Seq<Seq<char>>) -> bool {
    after.len() == before.len() + 1 && after == before.push(after.last())
}

impl Console {
    /// A console that has received nothing.
    pub fn new() -> (console: Console)
        ensures
            console@ == Seq::<Seq<char>>::empty(),
    {
        let console = Console { lines: Vec::new() };
        assert(console@ =~= Seq::<Seq<char>>::empty());
        console
    }

    /// How many lines have been delivered.
    pub fn len(&self) -> (count: usize)
        ensures
            count == self@.len(),
    {
        self.lines.len()
    }

    /// The line delivered at place `index`, counting from 0 in order of
    /// delivery; `None` where fewer lines than that have been delivered.
    pub fn line(&self, index: usize) -> (text: Option<&str>)
        ensures
            index < self@.len() ==> text.is_some() && text.unwrap()@ == self@[index as int],
            index >= self@.len() ==> text.is_none(),
    {
        if index < self.lines.len() {
            Some(self.lines[index].as_str())
        } else {
            None
        }
    }
}

/// Delivers `string` to the console as it stands: one line, equal to `string`
/// character for character, after everything delivered before.
pub fn console_log(console: &mut Console, string: &str)
    ensures
        final(console)@ == old(console)@.push(string@),
{
    console.lines.push(string.to_owned());
    assert(final(console)@ =~= old(console)@.push(string@));
}

/// The text that std's `write!` puts into a fresh `String` for `value` under
/// `{:?}`: whatever the `Debug` impl of `T` renders. `None` where the impl
/// reports an error, whatever it had written by then. Trusted, not proved, and
/// nothing is claimed of the outcome: text and error are the impl's to choose,
/// and two calls on one value need not agree.
#[verifier::external_body]
fn debug_text<T: Debug>(value: &T) -> (text: Option<String>) {
    let mut text = String::new();
    match write!(text, "{:?}", value) {
        Ok(()) => Some(text),
        Err(_) => None,
    }
}

/// Delivers `rendering` where there is one, as [`console_log`] delivers a
/// text, and says so with `true`. Where there is none, nothing is delivered
/// and the answer is `false`.
pub fn console_log_rendering(console: &mut Console, rendering: Option<String>) -> (delivered: bool)
    ensures
        delivered == rendering.is_some(),
        rendering.is_some() ==> final(console)@ == old(console)@.push(rendering.unwrap()@),
        rendering.is_none() ==> final(console)@ == old(console)@,
{
    match rendering {
        Some(text) => {
            console_log(console, text.as_str());
            true
        },
        None => false,
    }
}

/// Renders `value` by its `Debug` impl and delivers the rendering as
/// [`console_log`] delivers a text: one line, after everything delivered
/// before. What the line holds is the impl's choice, so the contract speaks
/// of the delivery only. Where the impl reports an error instead of a
/// rendering, nothing is delivered, not even what it had rendered so far, and
/// the answer is `false`.
pub fn console_log_any<T: Debug>(console: &mut Console, value: &T) -> (delivered: bool)
    ensures
        delivered ==> one_delivery(old(console)@, final(console)@),
        !delivered ==> final(console)@ == old(console)@,
{
    let rendering = debug_text(value);
    console_log_rendering(console, rendering)
}

} // verus!
