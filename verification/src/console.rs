//! The local console: what a line that was read means, and what is shown
//! of the actor's response.

use vstd::prelude::*;
use vstd::std_specs::iter::IteratorSpec;
use crate::actor::ReplResponse;
use crate::text::starts_with;

verus! {

/// What is printed before a line is read.
pub const PROMPT: &'static str = ">>> ";

/// What a line of the console asks for.
#[derive(Debug)]
pub enum ConsoleInput {
    /// Leave the console.
    Quit,
    /// Submit this code to the actor.
    Submit(String),
}

/// A line as it is read: it ends with a line feed.
pub open spec fn is_line(buf: Seq<char>) -> bool {
    buf.len() > 0 && buf.last() == '\n'
}

/// Whether the code asks to leave the console: it begins with `(quit)`.
pub open spec fn quits(code: Seq<char>) -> bool {
    "(quit)"@.is_prefix_of(code)
}

/// What is shown of a response: `=> ()` for no value, `=> ` and the text
/// of a value, nothing for a failure.
pub open spec fn shown(response: ReplResponse) -> Option<Seq<char>> {
    match response {
        ReplResponse::Empty => Some("=> ()"@),
        ReplResponse::Return(s) => Some("=> "@ + s@),
        ReplResponse::Error(_) => None,
    }
}

/// Whether `buf` ends with a line feed.
pub fn ends_line(buf: &str) -> (yes: bool)
    ensures
        yes == is_line(buf@),
{
    let mut last: Option<char> = None;
    for c in it: buf.chars()
        invariant
            it.seq() == buf@,
            last == if it.index() > 0 {
                Some(buf@[it.index() - 1])
            } else {
                None
            },
    {
        last = Some(c);
    }
    last == Some('\n')
}

/// Reads a line of the console. The line feed at its end is taken off;
/// what is left is code to submit, unless it begins with `(quit)`.
pub fn read_line(buf: &str) -> (input: ConsoleInput)
    requires
        is_line(buf@),
    ensures
        match input {
            ConsoleInput::Quit => quits(buf@.drop_last()),
            ConsoleInput::Submit(code) => !quits(buf@.drop_last()) && code@ == buf@.drop_last(),
        },
{
    let n = buf.unicode_len();
    let line = buf.substring_char(0, n - 1);
    if starts_with(line, "(quit)") {
        ConsoleInput::Quit
    } else {
        ConsoleInput::Submit(line.to_owned())
    }
}

/// The line that the console prints for a response, if it prints one.
pub fn echo(response: &ReplResponse) -> (line: Option<String>)
    ensures
        match line {
            Some(text) => shown(*response) == Some(text@),
            None => shown(*response) is None,
        },
{
    match response {
        ReplResponse::Empty => Some("=> ()".to_owned()),
        ReplResponse::Return(s) => {
            let mut text: String = "=> ".to_owned();
            text.append(s.as_str());
            Some(text)
        },
        ReplResponse::Error(_) => None,
    }
}

} // verus!
