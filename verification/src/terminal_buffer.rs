//! Buffer for a prefix and value that renders to the terminal.
//!
//! Its primary responsibility is converting strings to columns representing
//! Unicode graphemes so that multi-byte characters are handled correctly.
use crate::command::Command;
use crate::directive::{lemma_run_push, script_view, Directive, DirectiveView, Screen};
use crate::segment::{
    columns_of, concat, cursor_index, display_width, grapheme_clusters, index_at, join_range,
    lemma_concat_split, lemma_cursor_index_fits, measure, push_char, range_columns, run_length,
    saturate, split_graphemes, str_width, text_columns, to_coordinate, total, views, widths,
    word_span,
};
use vstd::prelude::*;
use vstd::std_specs::convert::{FromSpec, FromSpecImpl};
use vstd::string::*;

verus! {

/// The reason a layout cannot be computed.
#[derive(Debug, Clone, Copy, PartialEq, Eq)]
pub enum LayoutError {
    /// The value would reach the terminal's last column and have to wrap.
    Unsupported,
}

/// What a command leaves for the caller to do.
#[derive(Debug, PartialEq, Eq)]
pub enum Outcome {
    /// Perform these directives on the terminal and go on editing.
    Script(Vec<Directive>),
    /// The line was accepted: the session ends with the text.
    Accept,
    /// The prompt was abandoned: the session ends without a text.
    Abort,
    /// The previous history item is asked for.
    PreviousHistory,
    /// The next history item is asked for.
    NextHistory,
}

/// What a line buffer stands for: its label, its text, its mask, and the
/// terminal size and cursor as last set.
pub struct LineView {
    pub prefix: Seq<char>,
    pub text: Seq<char>,
    pub mask: Option<char>,
    pub size: (u16, u16),
    pub cursor: (u16, u16),
}

impl LineView {
    /// The grapheme clusters of the text.
    pub open spec fn clusters(self) -> Seq<Seq<char>> {
        grapheme_clusters(self.text)
    }

    /// The display width of each cluster of the text.
    pub open spec fn cluster_widths(self) -> Seq<usize> {
        widths(self.clusters())
    }

    /// The columns that the prefix occupies.
    pub open spec fn prefix_columns(self) -> nat {
        display_width(self.prefix) as nat
    }

    /// The columns that the text occupies.
    pub open spec fn text_columns(self) -> nat {
        columns_of(self.text)
    }

    /// The cursor's distance from the start of the text, in columns, kept
    /// within the text.
    pub open spec fn offset(self) -> nat {
        let col = self.cursor.0 as nat;
        if col <= self.prefix_columns() {
            0
        } else if col - self.prefix_columns() >= self.text_columns() {
            self.text_columns()
        } else {
            (col - self.prefix_columns()) as nat
        }
    }

    /// The number of whole clusters before the cursor.
    pub open spec fn index(self) -> nat {
        cursor_index(self.cluster_widths(), self.offset())
    }

    /// The number of characters in the first `k` clusters.
    pub open spec fn chars_before(self, k: nat) -> nat {
        concat(self.clusters().subrange(0, k as int)).len()
    }

    /// The number of characters before the cursor.
    pub open spec fn boundary(self) -> nat {
        self.chars_before(self.index())
    }

    /// The terminal column that lies `offset` columns into the text.
    pub open spec fn column(self, offset: nat) -> u16 {
        to_coordinate(self.prefix_columns() + offset)
    }

    /// What is shown for the text: the text, or the mask once per cluster.
    pub open spec fn visible(self) -> Seq<char> {
        match self.mask {
            Some(m) => Seq::new(self.clusters().len(), |i: int| m),
            None => self.text,
        }
    }

    /// The script that repaints the line and leaves the cursor at `position`.
    pub open spec fn redraw_script(self, position: (u16, u16)) -> Seq<DirectiveView> {
        seq![
            DirectiveView::MoveTo(0, position.1),
            DirectiveView::ClearLine,
            DirectiveView::Write(self.prefix),
            DirectiveView::Write(self.visible()),
            DirectiveView::MoveTo(position.0, position.1),
            DirectiveView::Flush,
        ]
    }

    /// The script that only moves the cursor to `position`.
    pub open spec fn move_script(position: (u16, u16)) -> Seq<DirectiveView> {
        seq![DirectiveView::MoveTo(position.0, position.1), DirectiveView::Flush]
    }

    /// The line with another text and cursor.
    pub open spec fn with(self, text: Seq<char>, cursor: (u16, u16)) -> LineView {
        LineView { text, cursor, ..self }
    }

    /// The line after `c` is typed at the cursor: `c` goes between the
    /// clusters before the cursor and those after it, and the cursor moves to
    /// the column just after the text up to and including `c`.
    pub open spec fn inserted(self, c: char) -> LineView {
        let cl = self.clusters();
        let k = self.index() as int;
        let head = concat(cl.subrange(0, k)).push(c);
        self.with(
            head + concat(cl.subrange(k, cl.len() as int)),
            (self.column(columns_of(head)), self.cursor.1),
        )
    }

    /// The number of clusters that erasing `amount` before the cursor removes.
    pub open spec fn erasable(self, amount: nat) -> nat {
        if amount <= self.index() {
            amount
        } else {
            self.index()
        }
    }

    /// The line after `amount` clusters before the cursor are erased, or as
    /// many as there are: the cursor moves back by the columns removed.
    pub open spec fn erased(self, amount: nat) -> LineView {
        let cl = self.clusters();
        let k = self.index() as int;
        let n = self.erasable(amount) as int;
        let removed = total(self.cluster_widths().subrange(k - n, k));
        let offset = if removed >= self.offset() {
            0
        } else {
            (self.offset() - removed) as nat
        };
        self.with(
            concat(cl.subrange(0, k - n)) + concat(cl.subrange(k, cl.len() as int)),
            (self.column(offset), self.cursor.1),
        )
    }

    /// The line with everything from the cursor on removed.
    pub open spec fn truncated(self) -> LineView {
        self.with(concat(self.clusters().subrange(0, self.index() as int)), self.cursor)
    }

    /// The line after a command: an edit or a move changes it as the
    /// operation of that name does, and the commands that end the session or
    /// ask for history leave it as it is.
    pub open spec fn applied(self, command: Command) -> LineView {
        match command {
            Command::WriteChar(c) => self.inserted(c),
            Command::MoveCursorLeft => self.with(self.text, self.left()),
            Command::MoveCursorRight => self.with(self.text, self.right()),
            Command::BackwardDeleteChar => self.erased(1),
            Command::ClearScreen => self.with(self.text, (self.cursor.0, 0u16)),
            Command::MoveToLineBegin => self.with(self.text, (self.column(0), self.cursor.1)),
            Command::MoveToLineEnd => self.with(
                self.text,
                (self.column(self.text_columns()), self.cursor.1),
            ),
            Command::BackwardKillLine => self.erased(self.index()),
            Command::EraseToLineEnd => self.truncated(),
            Command::BackwardKillWord => self.erased(word_span(self.clusters(), self.index())),
            Command::AcceptLine => self,
            Command::AbortPrompt => self,
            Command::PreviousHistory => self,
            Command::NextHistory => self,
        }
    }

    /// Whether `outcome` is the answer to `command` on a line that the
    /// command has left as `self`: the script that shows the line, or the
    /// signal that belongs to the command.
    pub open spec fn answers(self, command: Command, outcome: Outcome) -> bool {
        match command {
            Command::WriteChar(_)
            | Command::BackwardDeleteChar
            | Command::BackwardKillLine
            | Command::EraseToLineEnd
            | Command::BackwardKillWord => outcome is Script && script_view(outcome->Script_0@)
                == self.redraw_script(self.cursor),
            Command::MoveCursorLeft
            | Command::MoveCursorRight
            | Command::MoveToLineBegin
            | Command::MoveToLineEnd => outcome is Script && script_view(outcome->Script_0@)
                == LineView::move_script(self.cursor),
            Command::ClearScreen => outcome is Script && script_view(outcome->Script_0@)
                == seq![DirectiveView::ClearAll] + self.redraw_script(self.cursor),
            Command::AcceptLine => outcome is Accept,
            Command::AbortPrompt => outcome is Abort,
            Command::PreviousHistory => outcome is PreviousHistory,
            Command::NextHistory => outcome is NextHistory,
        }
    }

    /// The cursor one cluster to the left, or at the start of the text.
    pub open spec fn left(self) -> (u16, u16) {
        let k = self.index() as int;
        if k == 0 {
            (self.column(0), self.cursor.1)
        } else {
            let w = self.cluster_widths()[k - 1] as nat;
            let offset = if w >= self.offset() {
                0
            } else {
                (self.offset() - w) as nat
            };
            (self.column(offset), self.cursor.1)
        }
    }

    /// The cursor one cluster to the right, or at the end of the text.
    pub open spec fn right(self) -> (u16, u16) {
        let k = self.index() as int;
        if k >= self.cluster_widths().len() {
            (self.column(self.text_columns()), self.cursor.1)
        } else {
            let w = self.cluster_widths()[k] as nat;
            let offset = if self.offset() + w >= self.text_columns() {
                self.text_columns()
            } else {
                self.offset() + w
            };
            (self.column(offset), self.cursor.1)
        }
    }
}

/// A redraw leaves the row showing the prefix and the visible text, with the
/// cursor at the position asked for, whatever the screen showed before.
pub proof fn lemma_redraw_paints(line: LineView, position: (u16, u16), screen: Screen)
    ensures
        screen.run(line.redraw_script(position)) == (Screen {
            rows: screen.rows.insert(position.1, line.prefix + line.visible()),
            cursor: position,
        }),
{
    let d1 = DirectiveView::MoveTo(0, position.1);
    let d2 = DirectiveView::ClearLine;
    let d3 = DirectiveView::Write(line.prefix);
    let d4 = DirectiveView::Write(line.visible());
    let d5 = DirectiveView::MoveTo(position.0, position.1);
    let d6 = DirectiveView::Flush;
    let s0 = Seq::<DirectiveView>::empty();
    let s1 = s0.push(d1);
    let s2 = s1.push(d2);
    let s3 = s2.push(d3);
    let s4 = s3.push(d4);
    let s5 = s4.push(d5);
    let s6 = s5.push(d6);
    lemma_run_push(screen, s0, d1);
    lemma_run_push(screen, s1, d2);
    lemma_run_push(screen, s2, d3);
    lemma_run_push(screen, s3, d4);
    lemma_run_push(screen, s4, d5);
    lemma_run_push(screen, s5, d6);
    assert(line.redraw_script(position) =~= s6);
    assert(screen.run(s0) == screen);
    assert(Seq::<char>::empty() + line.prefix =~= line.prefix);
    assert(screen.run(s6).rows =~= screen.rows.insert(
        position.1,
        line.prefix + line.visible(),
    ));
}

/// Redrawing is idempotent: a second redraw of the same line at the same
/// position leaves the screen as the first one left it, with the text shown
/// once and the cursor where it was put.
pub proof fn lemma_redraw_idempotent(line: LineView, position: (u16, u16), screen: Screen)
    ensures
        screen.run(line.redraw_script(position)).run(line.redraw_script(position))
            == screen.run(line.redraw_script(position)),
        screen.run(line.redraw_script(position)).row(position.1) == line.prefix
            + line.visible(),
        screen.run(line.redraw_script(position)).cursor == position,
{
    let once = screen.run(line.redraw_script(position));
    lemma_redraw_paints(line, position, screen);
    lemma_redraw_paints(line, position, once);
    assert(once.rows.insert(position.1, line.prefix + line.visible()) =~= once.rows);
}

/// The cursor always stands within the text: its offset is at most the
/// columns of the text, and its grapheme index at most the number of
/// clusters, wherever the cursor was set.
pub proof fn lemma_cursor_within_text(line: LineView)
    ensures
        line.offset() <= line.text_columns(),
        line.index() <= line.clusters().len(),
        line.erasable(line.index()) == line.index(),
{
    lemma_cursor_index_fits(line.cluster_widths(), line.offset());
}

/// A move keeps the cursor between the start and the end of the text, in its
/// row: left never goes right of where the cursor stood, nor right left of it.
pub proof fn lemma_moves_within_text(line: LineView)
    ensures
        line.column(0) <= line.left().0 <= line.column(line.offset()),
        line.column(line.offset()) <= line.right().0 <= line.column(line.text_columns()),
        line.left().1 == line.cursor.1,
        line.right().1 == line.cursor.1,
{
    lemma_cursor_index_fits(line.cluster_widths(), line.offset());
}

/// Masking changes what is shown and nothing else: the masked form has one
/// mask character for each grapheme cluster of the text, and the text and its
/// columns are those of the same line without a mask.
pub proof fn lemma_mask_preserves_text(line: LineView, mask: char)
    ensures
        ({
            let masked = LineView { mask: Some(mask), ..line };
            &&& masked.text == line.text
            &&& masked.text_columns() == line.text_columns()
            &&& masked.visible().len() == line.clusters().len()
            &&& forall|i: int| 0 <= i < masked.visible().len() ==> masked.visible()[i] == mask
        }),
{
}

/// The text split at the cursor.
struct Layout {
    parts: Vec<String>,
    widths: Vec<usize>,
    offset: usize,
    index: usize,
}

/// Internal buffer for a string that operates on columns and rows and may
/// include a prefix to the buffer value.
pub struct TerminalBuffer<'a> {
    prefix: &'a str,
    buffer: String,
    prefix_cols: usize,
    buffer_cols: usize,
    echo: Option<char>,
    size: (u16, u16),
    position: (u16, u16),
}

impl<'a> View for TerminalBuffer<'a> {
    type V = LineView;

    closed spec fn view(&self) -> LineView {
        LineView {
            prefix: self.prefix@,
            text: self.buffer@,
            mask: self.echo,
            size: self.size,
            cursor: self.position,
        }
    }
}

impl<'a> TerminalBuffer<'a> {
    /// The cached column counts agree with the prefix and the text.
    pub closed spec fn wf(&self) -> bool {
        &&& self.prefix_cols == display_width(self.prefix@)
        &&& self.buffer_cols == saturate(columns_of(self.buffer@))
    }

    /// Create a new buffer using the given prefix and mask character.
    pub fn new(prefix: &'a str, echo: Option<char>) -> (buf: Self)
        ensures
            buf.wf(),
            buf@ == (LineView {
                prefix: prefix@,
                text: Seq::<char>::empty(),
                mask: echo,
                size: (0u16, 0u16),
                cursor: (0u16, 0u16),
            }),
    {
        let prefix_cols: usize = str_width(prefix);
        let mut buf = TerminalBuffer {
            prefix,
            prefix_cols,
            buffer: String::new(),
            buffer_cols: 0,
            echo,
            size: (0, 0),
            position: (0, 0),
        };
        buf.update(String::new());
        buf
    }

    /// Get the underlying buffer.
    pub fn buffer(&self) -> (text: &str)
        ensures
            text@ == self@.text,
    {
        self.buffer.as_str()
    }

    /// Get the number of columns for the prefix.
    pub fn prefix_columns(&self) -> (cols: usize)
        requires
            self.wf(),
        ensures
            cols == self@.prefix_columns(),
            cols == display_width(self@.prefix),
    {
        self.prefix_cols
    }

    /// Get the number of columns for the buffer: the sum of the display
    /// widths of its grapheme clusters.
    pub fn buffer_columns(&self) -> (cols: usize)
        requires
            self.wf(),
        ensures
            cols == saturate(self@.text_columns()),
            cols == saturate(total(widths(grapheme_clusters(self@.text)))),
    {
        self.buffer_cols
    }

    /// Get the cursor position as last set or left by an edit.
    pub fn position(&self) -> (position: (u16, u16))
        ensures
            position == self@.cursor,
    {
        self.position
    }

    /// Set the terminal size
    pub fn set_size(&mut self, size: (u16, u16))
        ensures
            final(self)@ == (LineView { size, ..old(self)@ }),
            final(self).wf() == old(self).wf(),
    {
        self.size = size;
    }

    /// Set the cursor position.
    pub fn set_position(&mut self, position: (u16, u16))
        ensures
            final(self)@ == (LineView { cursor: position, ..old(self)@ }),
            final(self).wf() == old(self).wf(),
    {
        self.position = position;
    }

    /// Update the buffer to a new value.
    fn update(&mut self, value: String)
        requires
            old(self).prefix_cols == display_width(old(self).prefix@),
        ensures
            final(self).wf(),
            final(self)@ == (LineView { text: value@, ..old(self)@ }),
    {
        let cols: usize = text_columns(value.as_str());
        self.buffer = value;
        self.buffer_cols = cols;
    }

    /// Split the text into clusters and find the cursor among them.
    fn locate(&self) -> (at: Layout)
        requires
            self.wf(),
        ensures
            views(at.parts@) == self@.clusters(),
            concat(views(at.parts@)) == self@.text,
            at.widths@ == self@.cluster_widths(),
            at.widths@.len() == at.parts@.len(),
            at.offset == self@.offset(),
            at.offset <= self@.cursor.0,
            at.index == self@.index(),
            at.index <= at.parts@.len(),
            total(at.widths@.take(at.index as int)) <= at.offset,
    {
        let parts = split_graphemes(self.buffer.as_str());
        let widths = measure(&parts);
        let offset: usize = self.offset();
        let index: usize = index_at(&widths, offset);
        Layout { parts, widths, offset, index }
    }

    /// The cursor's distance from the start of the text, in columns.
    fn offset(&self) -> (offset: usize)
        requires
            self.wf(),
        ensures
            offset == self@.offset(),
            offset <= self@.cursor.0,
    {
        let col: usize = self.position.0 as usize;
        if col <= self.prefix_cols {
            0
        } else if col - self.prefix_cols >= self.buffer_cols {
            self.buffer_cols
        } else {
            col - self.prefix_cols
        }
    }

    /// The terminal column that lies `offset` columns into the text.
    fn column_at(&self, offset: usize) -> (col: u16)
        requires
            self.wf(),
        ensures
            col == self@.column(offset as nat),
    {
        if offset >= 0xffff || self.prefix_cols >= 0xffff - offset {
            0xffff
        } else {
            (self.prefix_cols + offset) as u16
        }
    }

    /// Get a visible representation of the buffer: the text itself, or the
    /// mask character once for each grapheme cluster of the text.
    pub fn visible(&self) -> (shown: String)
        ensures
            shown@ == self@.visible(),
            self@.mask is None ==> shown@ == self@.text,
            self@.mask is Some ==> shown@.len() == grapheme_clusters(self@.text).len(),
            self@.mask is Some ==> forall|i: int|
                0 <= i < shown@.len() ==> shown@[i] == self@.mask->0,
    {
        match self.echo {
            Some(m) => {
                let parts = split_graphemes(self.buffer.as_str());
                let mut shown = String::new();
                let mut i: usize = 0;
                while i < parts.len()
                    invariant
                        i <= parts.len(),
                        shown@ == Seq::new(i as nat, |j: int| m),
                    decreases parts.len() - i,
                {
                    push_char(&mut shown, m);
                    i += 1;
                    assert(shown@ =~= Seq::new(i as nat, |j: int| m));
                }
                assert(parts@.len() == views(parts@).len());
                shown
            },
            None => self.buffer.clone(),
        }
    }

    /// Append the directives that repaint the line to a script.
    fn push_redraw(&self, script: &mut Vec<Directive>, position: (u16, u16))
        ensures
            script_view(final(script)@) == script_view(old(script)@) + self@.redraw_script(
                position,
            ),
    {
        let shown = self.visible();
        script.push(Directive::MoveTo(0, position.1));
        script.push(Directive::ClearLine);
        script.push(Directive::Write(String::from_str(self.prefix)));
        script.push(Directive::Write(shown));
        script.push(Directive::MoveTo(position.0, position.1));
        script.push(Directive::Flush);
        assert(script_view(script@) =~= script_view(old(script)@) + self@.redraw_script(position));
    }

    /// The script that moves the cursor to `position`.
    fn move_to(position: (u16, u16)) -> (script: Vec<Directive>)
        ensures
            script_view(script@) == LineView::move_script(position),
    {
        let mut script: Vec<Directive> = Vec::new();
        script.push(Directive::MoveTo(position.0, position.1));
        script.push(Directive::Flush);
        assert(script_view(script@) =~= LineView::move_script(position));
        script
    }

    /// Redraw the prefix and buffer moving the cursor to the given position:
    /// go to the start of the row, clear it, write the prefix and the visible
    /// text, go to the position, flush.
    pub fn redraw(&self, position: (u16, u16)) -> (script: Vec<Directive>)
        ensures
            script_view(script@) == self@.redraw_script(position),
    {
        let mut script: Vec<Directive> = Vec::new();
        self.push_redraw(&mut script, position);
        assert(script_view(script@) =~= self@.redraw_script(position));
        script
    }

    /// Replace the text and the cursor, and redraw.
    pub fn refresh(&mut self, buf: &str, position: (u16, u16)) -> (script: Vec<Directive>)
        requires
            old(self).wf(),
        ensures
            final(self).wf(),
            final(self)@ == old(self)@.with(buf@, position),
            script_view(script@) == final(self)@.redraw_script(position),
    {
        self.update(String::from_str(buf));
        self.position = position;
        self.redraw(position)
    }

    /// Push a character onto the end of the buffer, whatever the cursor, and
    /// hand it back as the text to write, without a flush and without a mask.
    pub fn push(&mut self, c: char) -> (script: Vec<Directive>)
        requires
            old(self).wf(),
        ensures
            final(self).wf(),
            final(self)@ == old(self)@.with(old(self)@.text.push(c), old(self)@.cursor),
            script_view(script@) == seq![DirectiveView::Write(seq![c])],
    {
        let mut text = self.buffer.clone();
        push_char(&mut text, c);
        self.update(text);
        let mut written = String::new();
        push_char(&mut written, c);
        let mut script: Vec<Directive> = Vec::new();
        script.push(Directive::Write(written));
        assert(script_view(script@) =~= seq![DirectiveView::Write(seq![c])]);
        script
    }

    /// Write the prefix and flush.
    pub fn write_prefix(&self) -> (script: Vec<Directive>)
        ensures
            script_view(script@) == seq![
                DirectiveView::Write(self@.prefix),
                DirectiveView::Flush,
            ],
    {
        let mut script: Vec<Directive> = Vec::new();
        script.push(Directive::Write(String::from_str(self.prefix)));
        script.push(Directive::Flush);
        assert(script_view(script@) =~= seq![
            DirectiveView::Write(self@.prefix),
            DirectiveView::Flush,
        ]);
        script
    }

    /// Write a character to the line at the cursor.
    pub fn write_char(&mut self, c: char) -> (script: Vec<Directive>)
        requires
            old(self).wf(),
        ensures
            final(self).wf(),
            final(self)@ == old(self)@.inserted(c),
            final(self)@.text == old(self)@.text.insert(old(self)@.boundary() as int, c),
            old(self)@.boundary() <= old(self)@.text.len(),
            script_view(script@) == final(self)@.redraw_script(final(self)@.cursor),
    {
        let at = self.locate();
        let mut text = join_range(&at.parts, 0, at.index);
        let ghost before = text@;
        push_char(&mut text, c);
        let head: usize = text_columns(text.as_str());
        let after = join_range(&at.parts, at.index, at.parts.len());
        text.append(after.as_str());
        proof {
            lemma_concat_split(views(at.parts@), at.index as int);
            assert(self@.text =~= before + after@);
            assert(self@.text.subrange(0, before.len() as int) =~= before);
            assert(self@.text.subrange(before.len() as int, self@.text.len() as int) =~= after@);
        }
        let position = (self.column_at(head), self.position.1);
        self.update(text);
        self.position = position;
        self.redraw(position)
    }

    /// Erase a number of grapheme clusters before the cursor, or as many as
    /// there are.
    pub fn erase_before(&mut self, amount: usize) -> (script: Vec<Directive>)
        requires
            old(self).wf(),
        ensures
            final(self).wf(),
            final(self)@ == old(self)@.erased(amount as nat),
            old(self)@.erasable(amount as nat) <= amount,
            old(self)@.erasable(amount as nat) <= old(self)@.index(),
            final(self)@.text == old(self)@.text.subrange(
                0,
                old(self)@.chars_before(
                    (old(self)@.index() - old(self)@.erasable(amount as nat)) as nat,
                ) as int,
            ) + old(self)@.text.subrange(
                old(self)@.boundary() as int,
                old(self)@.text.len() as int,
            ),
            script_view(script@) == final(self)@.redraw_script(final(self)@.cursor),
    {
        let at = self.locate();
        self.erase_at(&at, amount)
    }

    /// Erase clusters before the cursor, given the text split at the cursor.
    fn erase_at(&mut self, at: &Layout, amount: usize) -> (script: Vec<Directive>)
        requires
            old(self).wf(),
            views(at.parts@) == old(self)@.clusters(),
            at.widths@ == old(self)@.cluster_widths(),
            at.offset == old(self)@.offset(),
            at.index == old(self)@.index(),
            at.index <= at.parts@.len(),
            concat(views(at.parts@)) == old(self)@.text,
        ensures
            final(self).wf(),
            final(self)@ == old(self)@.erased(amount as nat),
            final(self)@.text == old(self)@.text.subrange(
                0,
                old(self)@.chars_before(
                    (old(self)@.index() - old(self)@.erasable(amount as nat)) as nat,
                ) as int,
            ) + old(self)@.text.subrange(
                old(self)@.boundary() as int,
                old(self)@.text.len() as int,
            ),
            script_view(script@) == final(self)@.redraw_script(final(self)@.cursor),
    {
        let n: usize = if amount <= at.index {
            amount
        } else {
            at.index
        };
        let start: usize = at.index - n;
        let mut text = join_range(&at.parts, 0, start);
        let ghost before = text@;
        let after = join_range(&at.parts, at.index, at.parts.len());
        text.append(after.as_str());
        proof {
            let cl = views(at.parts@);
            let head = cl.subrange(0, at.index as int);
            let gone = concat(cl.subrange(start as int, at.index as int));
            lemma_concat_split(cl, at.index as int);
            lemma_concat_split(head, start as int);
            assert(head.subrange(0, start as int) =~= cl.subrange(0, start as int));
            assert(head.subrange(start as int, head.len() as int) =~= cl.subrange(
                start as int,
                at.index as int,
            ));
            let whole = self@.text;
            assert(whole =~= before + gone + after@);
            assert(whole.subrange(0, before.len() as int) =~= before);
            assert(concat(head) =~= before + gone);
            assert(whole.subrange((before.len() + gone.len()) as int, whole.len() as int)
                =~= after@);
        }
        let removed: usize = range_columns(&at.widths, start, at.index);
        let offset: usize = if removed >= at.offset {
            0
        } else {
            at.offset - removed
        };
        let position = (self.column_at(offset), self.position.1);
        self.update(text);
        self.position = position;
        self.redraw(position)
    }

    /// Erase from the start of the text up to the cursor.
    pub fn backward_kill_line(&mut self) -> (script: Vec<Directive>)
        requires
            old(self).wf(),
        ensures
            final(self).wf(),
            final(self)@ == old(self)@.erased(old(self)@.index()),
            script_view(script@) == final(self)@.redraw_script(final(self)@.cursor),
    {
        let at = self.locate();
        let amount: usize = at.index;
        self.erase_at(&at, amount)
    }

    /// Erase the previous word: the blank clusters just before the cursor,
    /// and the clusters that are not blank before those.
    pub fn backward_kill_word(&mut self) -> (script: Vec<Directive>)
        requires
            old(self).wf(),
        ensures
            final(self).wf(),
            final(self)@ == old(self)@.erased(
                word_span(old(self)@.clusters(), old(self)@.index()),
            ),
            script_view(script@) == final(self)@.redraw_script(final(self)@.cursor),
    {
        let at = self.locate();
        let blanks: usize = run_length(&at.parts, at.index, true);
        let word: usize = run_length(&at.parts, at.index - blanks, false);
        self.erase_at(&at, blanks + word)
    }

    /// Erase from the cursor to the end of the text; the cursor stays.
    pub fn erase_to_line_end(&mut self) -> (script: Vec<Directive>)
        requires
            old(self).wf(),
        ensures
            final(self).wf(),
            final(self)@ == old(self)@.truncated(),
            script_view(script@) == final(self)@.redraw_script(final(self)@.cursor),
    {
        let at = self.locate();
        let text = join_range(&at.parts, 0, at.index);
        self.update(text);
        self.redraw(self.position)
    }

    /// Move the cursor left over one grapheme cluster.
    pub fn move_cursor_left(&mut self) -> (script: Vec<Directive>)
        requires
            old(self).wf(),
        ensures
            final(self).wf(),
            final(self)@ == old(self)@.with(old(self)@.text, old(self)@.left()),
            script_view(script@) == LineView::move_script(final(self)@.cursor),
    {
        let at = self.locate();
        let offset: usize = if at.index == 0 {
            0
        } else if at.widths[at.index - 1] >= at.offset {
            0
        } else {
            at.offset - at.widths[at.index - 1]
        };
        self.position = (self.column_at(offset), self.position.1);
        Self::move_to(self.position)
    }

    /// Move the cursor right over one grapheme cluster.
    pub fn move_cursor_right(&mut self) -> (script: Vec<Directive>)
        requires
            old(self).wf(),
        ensures
            final(self).wf(),
            final(self)@ == old(self)@.with(old(self)@.text, old(self)@.right()),
            script_view(script@) == LineView::move_script(final(self)@.cursor),
    {
        let at = self.locate();
        let offset: usize = if at.index >= at.widths.len() {
            self.buffer_cols
        } else if at.widths[at.index] >= self.buffer_cols - at.offset {
            self.buffer_cols
        } else {
            at.offset + at.widths[at.index]
        };
        self.position = (self.column_at(offset), self.position.1);
        Self::move_to(self.position)
    }

    /// Move the cursor to the start of the text.
    pub fn move_to_line_begin(&mut self) -> (script: Vec<Directive>)
        requires
            old(self).wf(),
        ensures
            final(self).wf(),
            final(self)@ == old(self)@.with(
                old(self)@.text,
                (old(self)@.column(0), old(self)@.cursor.1),
            ),
            script_view(script@) == LineView::move_script(final(self)@.cursor),
    {
        self.position = (self.column_at(0), self.position.1);
        Self::move_to(self.position)
    }

    /// Move the cursor to the end of the text.
    pub fn move_to_line_end(&mut self) -> (script: Vec<Directive>)
        requires
            old(self).wf(),
        ensures
            final(self).wf(),
            final(self)@ == old(self)@.with(
                old(self)@.text,
                (old(self)@.column(old(self)@.text_columns()), old(self)@.cursor.1),
            ),
            script_view(script@) == LineView::move_script(final(self)@.cursor),
    {
        self.position = (self.column_at(self.buffer_cols), self.position.1);
        Self::move_to(self.position)
    }

    /// Clear the display and redraw the line in the top row, the cursor in
    /// the column it was in.
    pub fn clear_screen(&mut self) -> (script: Vec<Directive>)
        requires
            old(self).wf(),
        ensures
            final(self).wf(),
            final(self)@ == old(self)@.with(old(self)@.text, (old(self)@.cursor.0, 0u16)),
            script_view(script@) == seq![DirectiveView::ClearAll] + final(self)@.redraw_script(
                final(self)@.cursor,
            ),
    {
        self.position = (self.position.0, 0);
        let mut script: Vec<Directive> = Vec::new();
        script.push(Directive::ClearAll);
        assert(script_view(script@) =~= seq![DirectiveView::ClearAll]);
        self.push_redraw(&mut script, self.position);
        script
    }

    /// Calculate the end position for a value: the column after the prefix
    /// and the value, in the cursor's row. A value that would reach the
    /// terminal's last column is not laid out.
    pub fn end_pos(&self, value: &str) -> (end: Result<(u16, u16), LayoutError>)
        requires
            self.wf(),
        ensures
            self@.prefix_columns() + columns_of(value@) < self@.size.0 ==> end == Ok::<
                (u16, u16),
                LayoutError,
            >(((self@.prefix_columns() + columns_of(value@)) as u16, self@.cursor.1)),
            self@.prefix_columns() + columns_of(value@) >= self@.size.0 ==> end == Err::<
                (u16, u16),
                LayoutError,
            >(LayoutError::Unsupported),
    {
        let cols: usize = text_columns(value);
        let width: usize = self.size.0 as usize;
        if self.prefix_cols < width && cols < width - self.prefix_cols {
            Ok(((self.prefix_cols + cols) as u16, self.position.1))
        } else {
            Err(LayoutError::Unsupported)
        }
    }

    /// Execute a command: every command has its operation or its signal.
    pub fn execute(&mut self, command: Command) -> (outcome: Outcome)
        requires
            old(self).wf(),
        ensures
            final(self).wf(),
            final(self)@ == old(self)@.applied(command),
            final(self)@.answers(command, outcome),
    {
        match command {
            Command::WriteChar(c) => Outcome::Script(self.write_char(c)),
            Command::MoveCursorLeft => Outcome::Script(self.move_cursor_left()),
            Command::MoveCursorRight => Outcome::Script(self.move_cursor_right()),
            Command::BackwardDeleteChar => Outcome::Script(self.erase_before(1)),
            Command::ClearScreen => Outcome::Script(self.clear_screen()),
            Command::MoveToLineBegin => Outcome::Script(self.move_to_line_begin()),
            Command::MoveToLineEnd => Outcome::Script(self.move_to_line_end()),
            Command::BackwardKillLine => Outcome::Script(self.backward_kill_line()),
            Command::EraseToLineEnd => Outcome::Script(self.erase_to_line_end()),
            Command::BackwardKillWord => Outcome::Script(self.backward_kill_word()),
            Command::AcceptLine => Outcome::Accept,
            Command::AbortPrompt => Outcome::Abort,
            Command::PreviousHistory => Outcome::PreviousHistory,
            Command::NextHistory => Outcome::NextHistory,
        }
    }

    /// Give up the buffer for its text.
    pub fn into_string(self) -> (text: String)
        ensures
            text@ == self@.text,
    {
        self.buffer
    }
}

impl<'a> From<TerminalBuffer<'a>> for String {
    /// Give up the buffer for its text.
    fn from(buf: TerminalBuffer<'a>) -> (text: String) {
        buf.buffer
    }
}

impl<'a> FromSpecImpl<TerminalBuffer<'a>> for String {
    open spec fn obeys_from_spec() -> bool {
        true
    }

    closed spec fn from_spec(buf: TerminalBuffer<'a>) -> String {
        buf.buffer
    }
}

/// The string that a buffer converts into holds the buffer's text.
pub proof fn lemma_from_gives_text<'a>(buf: TerminalBuffer<'a>)
    ensures
        <String as FromSpec<TerminalBuffer<'a>>>::from_spec(buf)@ == buf@.text,
{
}

} // verus!
