//! The status sink: the lines that tell the operator what happened.

use vstd::prelude::*;

verus! {

/// One status line: its text, and whether it reports an error.
#[derive(Clone, Debug, PartialEq, Eq)]
pub struct StatusLine {
    pub text: String,
    pub is_error: bool,
}

pub struct StatusLineView {
    pub text: Seq<char>,
    pub is_error: bool,
}

impl View for StatusLine {
    type V = StatusLineView;

    open spec fn view(&self) -> StatusLineView {
        StatusLineView { text: self.text@, is_error: self.is_error }
    }
}

/// The status lines so far, oldest first.
#[derive(Clone, Debug, PartialEq, Eq)]
pub struct StatusMessages {
    lines: Vec<StatusLine>,
}

/// The views of a list of status lines.
pub open spec fn line_views(lines: Seq<StatusLine>) -> Seq<StatusLineView> {
    Seq::new(lines.len(), |i: int| lines[i]@)
}

/// The status lines after an ordinary line was set.
pub open spec fn with_status(lines: Seq<StatusLineView>, text: Seq<char>) -> Seq<StatusLineView> {
    lines.push(StatusLineView { text, is_error: false })
}

/// The status lines after an error line was set.
pub open spec fn with_error(lines: Seq<StatusLineView>, text: Seq<char>) -> Seq<StatusLineView> {
    lines.push(StatusLineView { text, is_error: true })
}

impl View for StatusMessages {
    type V = Seq<StatusLineView>;

    closed spec fn view(&self) -> Seq<StatusLineView> {
        line_views(self.lines@)
    }
}

impl StatusMessages {
    /// A sink with no line yet.
    pub fn new() -> (res: Self)
        ensures
            res@ == Seq::<StatusLineView>::empty(),
    {
        let res = StatusMessages { lines: Vec::new() };
        res
    }

    /// Sets the status to an ordinary line.
    pub fn set(&mut self, text: &str)
        ensures
            final(self)@ == with_status(old(self)@, text@),
    {
        self.lines.push(StatusLine { text: text.to_owned(), is_error: false });
    }

    /// Sets the status to an error line.
    pub fn set_error(&mut self, text: &str)
        ensures
            final(self)@ == with_error(old(self)@, text@),
    {
        self.lines.push(StatusLine { text: text.to_owned(), is_error: true });
    }

    /// How many lines were set.
    pub fn count(&self) -> (res: usize)
        ensures
            res == self@.len(),
    {
        self.lines.len()
    }

    /// The line set last, or `None` where none was set yet.
    pub fn last(&self) -> (res: Option<&StatusLine>)
        ensures
            match res {
                Some(line) => self@.len() > 0 && line@ == self@.last(),
                None => self@.len() == 0,
            },
    {
        let n = self.lines.len();
        if n == 0 {
            None
        } else {
            Some(&self.lines[n - 1])
        }
    }
}

} // verus!
