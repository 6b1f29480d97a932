//! Grapheme clusters, their display widths, and the arithmetic that relates
//! grapheme indices to terminal columns.
use unicode_segmentation::UnicodeSegmentation;
use unicode_width::UnicodeWidthStr;
use vstd::prelude::*;
use vstd::string::*;

verus! {

/// The extended grapheme clusters of `text`, in order, as `unicode-segmentation`
/// delimits them.
pub uninterp spec fn grapheme_clusters(text: Seq<char>) -> Seq<Seq<char>>;

/// The number of terminal columns that `unicode-width` assigns to `text`.
pub uninterp spec fn display_width(text: Seq<char>) -> usize;

/// The character sequences held by a list of strings.
pub open spec fn views(parts: Seq<String>) -> Seq<Seq<char>> {
    parts.map_values(|s: String| s@)
}

/// All the pieces of `parts` joined end to end.
pub open spec fn concat(parts: Seq<Seq<char>>) -> Seq<char>
    decreases parts.len(),
{
    if parts.len() == 0 {
        Seq::empty()
    } else {
        concat(parts.drop_last()) + parts.last()
    }
}

/// The display width of each cluster.
pub open spec fn widths(clusters: Seq<Seq<char>>) -> Seq<usize> {
    clusters.map_values(|g: Seq<char>| display_width(g))
}

/// The sum of a list of widths.
pub open spec fn total(ws: Seq<usize>) -> nat
    decreases ws.len(),
{
    if ws.len() == 0 {
        0
    } else {
        total(ws.drop_last()) + ws.last() as nat
    }
}

/// The columns that `text` occupies: the sum of the widths of its clusters.
pub open spec fn columns_of(text: Seq<char>) -> nat {
    total(widths(grapheme_clusters(text)))
}

/// `n` limited to what a `usize` holds.
pub open spec fn saturate(n: nat) -> usize {
    if n > usize::MAX {
        usize::MAX
    } else {
        n as usize
    }
}

/// `n` limited to what a terminal coordinate holds.
pub open spec fn to_coordinate(n: nat) -> u16 {
    if n > u16::MAX {
        u16::MAX
    } else {
        n as u16
    }
}

/// The number of clusters in the longest leading run whose widths sum to at
/// most `offset` columns: the grapheme index of a cursor `offset` columns in.
pub open spec fn cursor_index(ws: Seq<usize>, offset: nat) -> nat
    decreases ws.len(),
{
    if ws.len() == 0 {
        0
    } else if total(ws) <= offset {
        ws.len()
    } else {
        cursor_index(ws.drop_last(), offset)
    }
}

/// A character that separates words.
pub open spec fn is_space(c: char) -> bool {
    c == ' ' || c == '\t' || c == '\n' || c == '\r' || c == '\u{0B}' || c == '\u{0C}'
        || c == '\u{85}' || c == '\u{A0}' || c == '\u{1680}' || ('\u{2000}' <= c && c
        <= '\u{200A}') || c == '\u{2028}' || c == '\u{2029}' || c == '\u{202F}' || c
        == '\u{205F}' || c == '\u{3000}'
}

/// A cluster that separates words: one that starts with a space character.
pub open spec fn is_blank(g: Seq<char>) -> bool {
    g.len() > 0 && is_space(g[0])
}

/// The length of the run of clusters that ends just before `end` and whose
/// members are all blank (`blank == true`) or all not blank.
pub open spec fn run_before(clusters: Seq<Seq<char>>, end: nat, blank: bool) -> nat
    decreases end,
{
    if end == 0 || end > clusters.len() || is_blank(clusters[end - 1]) != blank {
        0
    } else {
        1 + run_before(clusters, (end - 1) as nat, blank)
    }
}

/// The number of clusters that a backward word deletion removes before `end`:
/// the blank run that ends there, and the word before that run.
pub open spec fn word_span(clusters: Seq<Seq<char>>, end: nat) -> nat {
    let blanks = run_before(clusters, end, true);
    blanks + run_before(clusters, (end - blanks) as nat, false)
}

/// Calls `UnicodeSegmentation::graphemes` with extended clusters and copies
/// each cluster into a `String`. The clusters are consecutive slices of
/// `text` that together cover it, so joined they give `text` back.
#[verifier::external_body]
pub(crate) fn split_graphemes(text: &str) -> (parts: Vec<String>)
    ensures
        views(parts@) == grapheme_clusters(text@),
        concat(views(parts@)) == text@,
{
    UnicodeSegmentation::graphemes(text, true).map(String::from).collect()
}

/// Calls `UnicodeWidthStr::width`: the display width of `text` in columns.
#[verifier::external_body]
pub(crate) fn str_width(text: &str) -> (w: usize)
    ensures
        w == display_width(text@),
{
    UnicodeWidthStr::width(text)
}

/// Calls `String::push`: appends one character.
#[verifier::external_body]
pub(crate) fn push_char(text: &mut String, c: char)
    ensures
        final(text)@ == old(text)@.push(c),
{
    text.push(c)
}

/// A leading run of widths never sums to more than the whole list.
pub proof fn lemma_total_monotone(ws: Seq<usize>, j: int)
    requires
        0 <= j <= ws.len(),
    ensures
        total(ws.take(j)) <= total(ws),
    decreases ws.len(),
{
    if j == ws.len() {
        assert(ws.take(j) =~= ws);
    } else {
        let d = ws.drop_last();
        lemma_total_monotone(d, j);
        assert(d.take(j) =~= ws.take(j));
    }
}

/// The index `k` whose leading run fits in `offset` columns, while one more
/// cluster would not, is the cursor's grapheme index.
pub proof fn lemma_cursor_index(ws: Seq<usize>, offset: nat, k: int)
    requires
        0 <= k <= ws.len(),
        total(ws.take(k)) <= offset,
        k < ws.len() ==> total(ws.take(k + 1)) > offset,
    ensures
        cursor_index(ws, offset) == k,
    decreases ws.len(),
{
    if k == ws.len() {
        assert(ws.take(k) =~= ws);
    } else {
        lemma_total_monotone(ws, k + 1);
        let d = ws.drop_last();
        assert(d.take(k) =~= ws.take(k));
        if k < d.len() {
            assert(d.take(k + 1) =~= ws.take(k + 1));
        }
        lemma_cursor_index(d, offset, k);
    }
}

/// The cursor's grapheme index lies within the line, and the clusters before
/// it fit in the cursor's offset: no slice taken at it can leave the text.
pub proof fn lemma_cursor_index_fits(ws: Seq<usize>, offset: nat)
    ensures
        cursor_index(ws, offset) <= ws.len(),
        total(ws.take(cursor_index(ws, offset) as int)) <= offset,
    decreases ws.len(),
{
    if ws.len() == 0 {
        assert(ws.take(0) =~= ws);
    } else if total(ws) <= offset {
        assert(ws.take(ws.len() as int) =~= ws);
    } else {
        let d = ws.drop_last();
        lemma_cursor_index_fits(d, offset);
        assert(d.take(cursor_index(d, offset) as int) =~= ws.take(cursor_index(d, offset) as int));
    }
}

/// Joining the clusters before an index and those from it on gives the whole.
pub proof fn lemma_concat_split(parts: Seq<Seq<char>>, k: int)
    requires
        0 <= k <= parts.len(),
    ensures
        concat(parts.subrange(0, k)) + concat(parts.subrange(k, parts.len() as int)) == concat(
            parts,
        ),
    decreases parts.len(),
{
    let n = parts.len() as int;
    if k == n {
        assert(parts.subrange(0, k) =~= parts);
        assert(concat(parts.subrange(k, n)) =~= Seq::<char>::empty());
        assert(concat(parts) + Seq::<char>::empty() =~= concat(parts));
    } else {
        let d = parts.drop_last();
        lemma_concat_split(d, k);
        assert(d.subrange(0, k) =~= parts.subrange(0, k));
        assert(parts.subrange(k, n).drop_last() =~= d.subrange(k, n - 1));
        assert(parts.subrange(k, n).last() == parts.last());
        assert(concat(parts.subrange(0, k)) + (concat(d.subrange(k, n - 1)) + parts.last())
            =~= (concat(parts.subrange(0, k)) + concat(d.subrange(k, n - 1))) + parts.last());
    }
}

/// The display width of each part, by `unicode-width`.
pub fn measure(parts: &Vec<String>) -> (ws: Vec<usize>)
    ensures
        ws@ == widths(views(parts@)),
{
    let mut ws: Vec<usize> = Vec::new();
    let mut i: usize = 0;
    while i < parts.len()
        invariant
            i <= parts.len(),
            ws@ == widths(views(parts@).take(i as int)),
        decreases parts.len() - i,
    {
        let w: usize = str_width(parts[i].as_str());
        ws.push(w);
        assert(ws@ =~= widths(views(parts@).take(i + 1)));
        i += 1;
    }
    assert(views(parts@).take(i as int) =~= views(parts@));
    ws
}

/// The sum of the widths from index `from` up to `to`, limited to `usize`.
pub fn range_columns(ws: &Vec<usize>, from: usize, to: usize) -> (t: usize)
    requires
        from <= to <= ws.len(),
    ensures
        t == saturate(total(ws@.subrange(from as int, to as int))),
{
    let mut t: usize = 0;
    let mut i: usize = from;
    while i < to
        invariant
            from <= i <= to <= ws.len(),
            t == saturate(total(ws@.subrange(from as int, i as int))),
        decreases to - i,
    {
        proof {
            let next = ws@.subrange(from as int, i + 1);
            assert(next.drop_last() =~= ws@.subrange(from as int, i as int));
            assert(next.last() == ws@[i as int]);
        }
        if ws[i] > usize::MAX - t {
            t = usize::MAX;
        } else {
            t = t + ws[i];
        }
        i += 1;
    }
    t
}

/// The columns that `text` occupies, limited to `usize`.
pub fn text_columns(text: &str) -> (cols: usize)
    ensures
        cols == saturate(columns_of(text@)),
{
    let parts = split_graphemes(text);
    let ws = measure(&parts);
    assert(ws@.subrange(0, ws@.len() as int) =~= ws@);
    range_columns(&ws, 0, ws.len())
}

/// The grapheme index of a cursor that stands `offset` columns into a line
/// whose clusters have the widths `ws`.
pub fn index_at(ws: &Vec<usize>, offset: usize) -> (k: usize)
    ensures
        k == cursor_index(ws@, offset as nat),
        k <= ws.len(),
        total(ws@.take(k as int)) <= offset,
{
    let mut k: usize = 0;
    let mut used: usize = 0;
    while k < ws.len() && ws[k] <= offset - used
        invariant
            k <= ws.len(),
            used == total(ws@.take(k as int)),
            used <= offset,
        decreases ws.len() - k,
    {
        proof {
            let next = ws@.take(k + 1);
            assert(next.drop_last() =~= ws@.take(k as int));
            assert(next.last() == ws@[k as int]);
        }
        used = used + ws[k];
        k += 1;
    }
    proof {
        if k < ws.len() {
            let next = ws@.take(k + 1);
            assert(next.drop_last() =~= ws@.take(k as int));
            assert(next.last() == ws@[k as int]);
        }
        lemma_cursor_index(ws@, offset as nat, k as int);
    }
    k
}

/// The parts from index `from` up to `to`, joined into one string.
pub fn join_range(parts: &Vec<String>, from: usize, to: usize) -> (out: String)
    requires
        from <= to <= parts.len(),
    ensures
        out@ == concat(views(parts@).subrange(from as int, to as int)),
{
    let mut out = String::new();
    let mut i: usize = from;
    while i < to
        invariant
            from <= i <= to <= parts.len(),
            out@ == concat(views(parts@).subrange(from as int, i as int)),
        decreases to - i,
    {
        proof {
            let next = views(parts@).subrange(from as int, i + 1);
            assert(next.drop_last() =~= views(parts@).subrange(from as int, i as int));
            assert(next.last() == parts@[i as int]@);
        }
        out.append(parts[i].as_str());
        i += 1;
    }
    out
}

/// Whether `c` separates words.
pub fn space_char(c: char) -> (b: bool)
    ensures
        b == is_space(c),
{
    c == ' ' || c == '\t' || c == '\n' || c == '\r' || c == '\u{0B}' || c == '\u{0C}'
        || c == '\u{85}' || c == '\u{A0}' || c == '\u{1680}' || ('\u{2000}' <= c && c
        <= '\u{200A}') || c == '\u{2028}' || c == '\u{2029}' || c == '\u{202F}' || c
        == '\u{205F}' || c == '\u{3000}'
}

/// Whether `g` is a cluster that separates words.
pub fn blank(g: &str) -> (b: bool)
    ensures
        b == is_blank(g@),
{
    !g.is_empty() && space_char(g.get_char(0))
}

/// The length of the run of parts that ends just before `end` and whose
/// members are all blank, or all not blank.
pub fn run_length(parts: &Vec<String>, end: usize, want_blank: bool) -> (n: usize)
    requires
        end <= parts.len(),
    ensures
        n == run_before(views(parts@), end as nat, want_blank),
        n <= end,
{
    let mut n: usize = 0;
    while n < end && blank(parts[end - n - 1].as_str()) == want_blank
        invariant
            n <= end <= parts.len(),
            run_before(views(parts@), end as nat, want_blank) == n + run_before(
                views(parts@),
                (end - n) as nat,
                want_blank,
            ),
        decreases end - n,
    {
        n += 1;
    }
    n
}

} // verus!
