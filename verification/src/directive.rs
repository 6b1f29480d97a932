//! The terminal directives that the engine asks its caller to perform, and a
//! model of what they do to a screen.
use vstd::prelude::*;

verus! {

/// One thing for the terminal driver to do.
#[derive(Debug, PartialEq, Eq)]
pub enum Directive {
    /// Move the cursor to a column and a row.
    MoveTo(u16, u16),
    /// Clear the row that the cursor is in.
    ClearLine,
    /// Clear the whole display.
    ClearAll,
    /// Write text at the cursor.
    Write(String),
    /// Flush what was queued.
    Flush,
}

/// A directive with its text as a sequence of characters.
pub enum DirectiveView {
    MoveTo(u16, u16),
    ClearLine,
    ClearAll,
    Write(Seq<char>),
    Flush,
}

impl View for Directive {
    type V = DirectiveView;

    open spec fn view(&self) -> DirectiveView {
        match self {
            Directive::MoveTo(col, row) => DirectiveView::MoveTo(*col, *row),
            Directive::ClearLine => DirectiveView::ClearLine,
            Directive::ClearAll => DirectiveView::ClearAll,
            Directive::Write(text) => DirectiveView::Write(text@),
            Directive::Flush => DirectiveView::Flush,
        }
    }
}

/// The views of a list of directives.
pub open spec fn script_view(script: Seq<Directive>) -> Seq<DirectiveView> {
    script.map_values(|d: Directive| d@)
}

/// What a terminal shows: the text of each row that holds any, and the cursor
/// as column and row.
pub struct Screen {
    pub rows: Map<u16, Seq<char>>,
    pub cursor: (u16, u16),
}

impl Screen {
    /// The text in a row, empty where nothing was written.
    pub open spec fn row(self, row: u16) -> Seq<char> {
        if self.rows.dom().contains(row) {
            self.rows[row]
        } else {
            Seq::empty()
        }
    }

    /// The screen after one directive. Written text extends the cursor's row;
    /// how far it carries the cursor along is left to the terminal, so the
    /// model keeps the cursor where the last move put it.
    pub open spec fn step(self, d: DirectiveView) -> Screen {
        match d {
            DirectiveView::MoveTo(col, row) => Screen { cursor: (col, row), ..self },
            DirectiveView::ClearLine => Screen {
                rows: self.rows.insert(self.cursor.1, Seq::empty()),
                ..self
            },
            DirectiveView::ClearAll => Screen { rows: Map::empty(), ..self },
            DirectiveView::Write(text) => Screen {
                rows: self.rows.insert(self.cursor.1, self.row(self.cursor.1) + text),
                ..self
            },
            DirectiveView::Flush => self,
        }
    }

    /// The screen after a script, run from its first directive to its last.
    pub open spec fn run(self, script: Seq<DirectiveView>) -> Screen
        decreases script.len(),
    {
        if script.len() == 0 {
            self
        } else {
            self.run(script.drop_last()).step(script.last())
        }
    }
}

/// Running a script with one more directive is running the script, then
/// taking that one step.
pub proof fn lemma_run_push(screen: Screen, script: Seq<DirectiveView>, d: DirectiveView)
    ensures
        screen.run(script.push(d)) == screen.run(script).step(d),
{
    assert(script.push(d).drop_last() =~= script);
}

} // verus!
