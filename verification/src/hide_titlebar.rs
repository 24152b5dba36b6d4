//! A greeting shown in a window without a title bar.

use crate::color::Rgb;
use vstd::prelude::*;

verus! {

/// The view that greets: it holds the words that close the greeting.
pub struct HelloWorld {
    pub text: String,
}

/// What the greeting view shows: one line of text on a plain ground.
#[derive(Debug, PartialEq, Eq)]
pub struct Greeting {
    pub background: Rgb,
    pub text_color: Rgb,
    pub message: String,
}

/// The line that greets with `text`.
pub open spec fn greeting_line(text: Seq<char>) -> Seq<char> {
    "A gpui app, "@ + text + "!"@
}

impl HelloWorld {
    /// Describes the greeting: white text on a green ground, the line made
    /// of the fixed opening, the view's own words and an exclamation mark.
    pub fn render(&self) -> (greeting: Greeting)
        ensures
            greeting.background == Rgb(0x2e7d32),
            greeting.text_color == Rgb(0xffffff),
            greeting.message@ == greeting_line(self.text@),
    {
        let mut message = String::from_str("A gpui app, ");
        message.append(self.text.as_str());
        message.append("!");
        Greeting { background: Rgb(0x2e7d32), text_color: Rgb(0xffffff), message }
    }
}

} // verus!
