use vstd::prelude::*;
use vstd::seq_lib::lemma_flatten_concat;

use crate::grapheme::{display_width, display_width_of, graphemes_of, push_char, split_graphemes};

verus! {

/// Width class of one grapheme cluster on screen: one column or two.
#[derive(Clone, Copy, PartialEq, Eq, Structural, Debug)]
pub enum GraphemeWidth {
    Half,
    Full,
}

/// The glyph shown in place of a cluster whose own display width is zero.
pub const ZERO_WIDTH_SUBSTITUTE: char = '\u{b7}';

/// The glyph shown for a cluster that straddles the viewport's edge.
pub const CLIP_MARKER: char = '\u{22ef}';

impl GraphemeWidth {
    /// Columns this class occupies.
    pub open spec fn as_cols(self) -> nat {
        match self {
            GraphemeWidth::Half => 1,
            GraphemeWidth::Full => 2,
        }
    }

    /// `other` plus this class's column count, clamped at `usize::MAX`.
    pub fn saturating_add(self, other: usize) -> (r: usize)
        ensures
            r == sat_cap(other + self.as_cols()),
    {
        match self {
            GraphemeWidth::Half => other.saturating_add(1),
            GraphemeWidth::Full => other.saturating_add(2),
        }
    }
}

/// Clamp a mathematical column count into the machine range.
pub open spec fn sat_cap(n: int) -> int {
    if n > usize::MAX {
        usize::MAX as int
    } else {
        n
    }
}

/// Columns a cluster occupies on screen: two for a wide cluster, one
/// otherwise (zero-width clusters are shown as a one-column substitute).
pub open spec fn cluster_cols(g: Seq<char>) -> nat {
    if display_width_of(g) >= 2 {
        2
    } else {
        1
    }
}

/// One grapheme cluster of a row, with its width class and, for a
/// zero-width cluster, the substitute glyph used when rendering.
pub struct TextFragment {
    pub grapheme: String,
    pub rendered_width: GraphemeWidth,
    pub replacement: Option<char>,
}

impl TextFragment {
    /// The width class and substitute glyph are the ones the cluster's
    /// display width dictates, and the cluster is nonempty.
    pub open spec fn wf(self) -> bool {
        &&& self.grapheme@.len() > 0
        &&& self.rendered_width == (if display_width_of(self.grapheme@) >= 2 {
            GraphemeWidth::Full
        } else {
            GraphemeWidth::Half
        })
        &&& self.replacement == (if display_width_of(self.grapheme@) == 0 {
            Some(ZERO_WIDTH_SUBSTITUTE)
        } else {
            None::<char>
        })
    }
}

/// One text row, held as its grapheme-cluster decomposition.
pub struct Line {
    pub fragments: Vec<TextFragment>,
}

/// Sum of the on-screen widths of the first `i` clusters.
pub open spec fn width_upto(gs: Seq<Seq<char>>, i: int) -> nat
    decreases i,
{
    if i <= 0 {
        0
    } else {
        width_upto(gs, i - 1) + cluster_cols(gs[i - 1])
    }
}

/// What one rendering pass over `frags` emits, starting at screen column
/// `pos`, for the column window `[start, end)`: nothing once the column
/// reaches `end`; nothing for a fragment that ends at or before `start`; a
/// clipping marker for a fragment that straddles either window edge; and
/// otherwise the fragment's substitute glyph if it has one, or its grapheme.
pub open spec fn visible_pieces(frags: Seq<TextFragment>, pos: int, start: int, end: int) -> Seq<
    char,
>
    decreases frags.len(),
{
    if frags.len() == 0 || pos >= end {
        Seq::<char>::empty()
    } else {
        let f = frags.first();
        let fragment_end = sat_cap(pos + f.rendered_width.as_cols());
        let piece = if fragment_end > start {
            if fragment_end > end || pos < start {
                seq![CLIP_MARKER]
            } else if f.replacement is Some {
                seq![f.replacement->0]
            } else {
                f.grapheme@
            }
        } else {
            Seq::<char>::empty()
        };
        piece + visible_pieces(frags.drop_first(), fragment_end, start, end)
    }
}

impl Line {
    /// The clusters of this row, in order.
    pub open spec fn graphemes(&self) -> Seq<Seq<char>> {
        self.fragments@.map_values(|f: TextFragment| f.grapheme@)
    }

    /// The row's text: the concatenation of its clusters.
    pub open spec fn text(&self) -> Seq<char> {
        self.graphemes().flatten()
    }

    /// Number of clusters.
    pub open spec fn count(&self) -> nat {
        self.fragments@.len()
    }

    /// The fragments are exactly the cluster decomposition of the row's
    /// current text, and each carries the width class its cluster dictates.
    pub open spec fn wf(&self) -> bool {
        &&& self.graphemes() == graphemes_of(self.text())
        &&& forall|i: int| 0 <= i < self.fragments@.len() ==> self.fragments@[i].wf()
    }

    /// Decompose a string into a row of grapheme clusters.
    pub fn from(line_str: &str) -> (r: Self)
        ensures
            r.wf(),
            r.text() == line_str@,
            r.graphemes() == graphemes_of(line_str@),
    {
        Self { fragments: str_to_fragments(line_str) }
    }

    /// Number of grapheme clusters: the logical length used for cursor math.
    pub fn grapheme_count(&self) -> (r: usize)
        ensures
            r == self.count(),
    {
        self.fragments.len()
    }

    /// The cluster count, truncated into `u16`.
    pub fn grapheme_count_u16(&self) -> (r: u16)
        ensures
            r == self.count() as u16,
    {
        #[verifier::truncate]
        (self.fragments.len() as u16)
    }

    /// Width in columns of the clusters strictly before `i`, with `i` clamped
    /// to the cluster count. Under `wf` this is determined by the clusters.
    pub open spec fn width_until_spec(&self, i: int) -> nat {
        width_upto(self.graphemes(), if i <= self.count() {
            i
        } else {
            self.count() as int
        })
    }

    /// The screen column at which the grapheme at `grapheme_index` starts:
    /// the summed widths of all clusters before it, clamped at `usize::MAX`.
    pub fn width_until(&self, grapheme_index: usize) -> (r: usize)
        requires
            self.wf(),
        ensures
            r == sat_cap(self.width_until_spec(grapheme_index as int) as int),
    {
        let upper = if grapheme_index <= self.fragments.len() {
            grapheme_index
        } else {
            self.fragments.len()
        };
        let mut total: usize = 0;
        let mut idx: usize = 0;
        while idx < upper
            invariant
                self.wf(),
                upper <= self.fragments@.len(),
                idx <= upper,
                total == sat_cap(width_upto(self.graphemes(), idx as int) as int),
            decreases upper - idx,
        {
            proof {
                assert(self.fragments@[idx as int].wf());
                assert(self.graphemes()[idx as int] == self.fragments@[idx as int].grapheme@);
            }
            total = self.fragments[idx].rendered_width.saturating_add(total);
            idx = idx + 1;
        }
        total
    }

    /// The starting column, truncated into `u16`.
    pub fn width_until_u16(&self, grapheme_index: usize) -> (r: u16)
        requires
            self.wf(),
        ensures
            r == (sat_cap(self.width_until_spec(grapheme_index as int) as int) as u16),
    {
        #[verifier::truncate]
        (self.width_until(grapheme_index) as u16)
    }

    /// The row's textual content.
    pub fn to_string(&self) -> (r: String)
        ensures
            r@ == self.text(),
    {
        let r = self.collect_text(0, self.fragments.len());
        proof {
            assert(self.graphemes().subrange(0, self.count() as int) =~= self.graphemes());
        }
        r
    }

    /// The concatenated text of the clusters with indices in `[from, to)`.
    fn collect_text(&self, from: usize, to: usize) -> (r: String)
        requires
            from <= to <= self.count(),
        ensures
            r@ == self.graphemes().subrange(from as int, to as int).flatten(),
    {
        let mut result = String::new();
        let mut idx: usize = from;
        proof {
            assert(self.graphemes().subrange(from as int, from as int).flatten()
                =~= Seq::<char>::empty());
        }
        while idx < to
            invariant
                from <= idx <= to <= self.fragments@.len(),
                result@ == self.graphemes().subrange(from as int, idx as int).flatten(),
            decreases to - idx,
        {
            result.append(self.fragments[idx].grapheme.as_str());
            proof {
                let gs = self.graphemes();
                assert(gs.subrange(from as int, idx + 1) =~= gs.subrange(
                    from as int,
                    idx as int,
                ).push(gs[idx as int]));
                gs.subrange(from as int, idx as int).lemma_flatten_push(gs[idx as int]);
            }
            idx = idx + 1;
        }
        result
    }

    /// The rendered slice of the row covering screen columns
    /// `[start, end)`: `visible_pieces` folded over all fragments from
    /// column 0, or nothing for a degenerate range.
    pub open spec fn visible_spec(&self, start: int, end: int) -> Seq<char> {
        if start >= end {
            Seq::<char>::empty()
        } else {
            visible_pieces(self.fragments@, 0, start, end)
        }
    }

    /// The rendered slice of the row covering screen columns
    /// `[range.start, range.end)`. A fragment fully before `start` or at or
    /// after `end` is omitted; one straddling either boundary is shown as a
    /// single clipping marker; otherwise its own grapheme (or, for a
    /// zero-width cluster, its substitute glyph) is emitted. One pass, in
    /// fragment order.
    pub fn get_visible_graphemes(&self, range: core::ops::Range<usize>) -> (r: String)
        ensures
            r@ == self.visible_spec(range.start as int, range.end as int),
    {
        let start = range.start;
        let end = range.end;
        let mut result = String::new();
        if start >= end {
            return result;
        }
        let mut current_pos: usize = 0;
        let mut idx: usize = 0;
        let ghost frags = self.fragments@;
        proof {
            assert(frags.skip(0) =~= frags);
            assert(Seq::<char>::empty() + visible_pieces(frags, 0, start as int, end as int)
                =~= visible_pieces(frags, 0, start as int, end as int));
        }
        while idx < self.fragments.len()
            invariant
                frags == self.fragments@,
                idx <= frags.len(),
                start < end,
                visible_pieces(frags, 0, start as int, end as int) == result@ + visible_pieces(
                    frags.skip(idx as int),
                    current_pos as int,
                    start as int,
                    end as int,
                ),
            decreases frags.len() - idx,
        {
            proof {
                assert(frags.skip(idx as int).len() > 0);
                assert(frags.skip(idx as int)[0] == frags[idx as int]);
                assert(frags.skip(idx as int).drop_first() =~= frags.skip(idx + 1));
            }
            let fragment = &self.fragments[idx];
            let fragment_end = fragment.rendered_width.saturating_add(current_pos);
            if current_pos < end && fragment_end > start {
                if fragment_end > end || current_pos < start {
                    // Clip on the right or left
                    push_char(&mut result, CLIP_MARKER);
                } else if let Some(char) = fragment.replacement {
                    push_char(&mut result, char);
                } else {
                    result.append(fragment.grapheme.as_str());
                }
            }
            current_pos = fragment_end;
            idx = idx + 1;
        }
        proof {
            assert(visible_pieces(
                frags.skip(frags.len() as int),
                current_pos as int,
                start as int,
                end as int,
            ) =~= Seq::<char>::empty());
            assert(result@ + Seq::<char>::empty() =~= result@);
        }
        result
    }

    /// The text that results from inserting `c` immediately before the
    /// cluster at `i`, or at the end of the row when `i` is past the last
    /// cluster.
    pub open spec fn insert_text(&self, c: char, i: int) -> Seq<char> {
        let k = if i <= self.count() {
            i
        } else {
            self.count() as int
        };
        self.graphemes().take(k).flatten() + seq![c] + self.graphemes().skip(k).flatten()
    }

    /// Insert `c` before the grapheme at `grapheme_index` (append when the
    /// index is at or past the end) and re-derive the cluster decomposition:
    /// inserting next to a combining mark can change clustering.
    pub fn insert_char(&mut self, character: char, grapheme_index: usize)
        requires
            old(self).wf(),
        ensures
            final(self).wf(),
            final(self).text() == old(self).insert_text(character, grapheme_index as int),
            final(self).graphemes() == graphemes_of(final(self).text()),
            final(self).text().len() == old(self).text().len() + 1,
    {
        let at = if grapheme_index <= self.fragments.len() {
            grapheme_index
        } else {
            self.fragments.len()
        };
        let mut result = self.collect_text(0, at);
        push_char(&mut result, character);
        let tail = self.collect_text(at, self.fragments.len());
        result.append(tail.as_str());
        proof {
            let gs = self.graphemes();
            let k = at as int;
            assert(gs.subrange(0, k) =~= gs.take(k));
            assert(gs.subrange(k, gs.len() as int) =~= gs.skip(k));
            assert(gs.take(k).flatten().push(character) + gs.skip(k).flatten() =~= gs.take(
                k,
            ).flatten() + seq![character] + gs.skip(k).flatten());
            lemma_flatten_concat(gs.take(k), gs.skip(k));
            assert(gs.take(k) + gs.skip(k) =~= gs);
        }
        self.fragments = str_to_fragments(result.as_str());
    }

    /// The text that remains after removing the cluster at `i`.
    pub open spec fn remove_text(&self, i: int) -> Seq<char> {
        self.graphemes().remove(i).flatten()
    }

    /// Remove the grapheme at `grapheme_index` if it is in range (a no-op
    /// otherwise) and re-derive the cluster decomposition from the remaining
    /// text.
    pub fn delete(&mut self, grapheme_index: usize)
        requires
            old(self).wf(),
        ensures
            final(self).wf(),
            grapheme_index < old(self).count() ==> {
                &&& final(self).text() == old(self).remove_text(grapheme_index as int)
                &&& final(self).graphemes() == graphemes_of(final(self).text())
            },
            grapheme_index >= old(self).count() ==> *final(self) == *old(self),
    {
        if grapheme_index >= self.fragments.len() {
            return ;
        }
        let mut result = self.collect_text(0, grapheme_index);
        let tail = self.collect_text(grapheme_index + 1, self.fragments.len());
        result.append(tail.as_str());
        proof {
            let gs = self.graphemes();
            let k = grapheme_index as int;
            assert(gs.subrange(0, k) =~= gs.take(k));
            assert(gs.remove(k) =~= gs.take(k) + gs.subrange(k + 1, gs.len() as int));
            lemma_flatten_concat(gs.take(k), gs.subrange(k + 1, gs.len() as int));
        }
        self.fragments = str_to_fragments(result.as_str());
    }

    /// Concatenate `other`'s text onto this row and re-cluster. When the
    /// decomposition of the joined text is the two original decompositions
    /// laid end to end, the joined row's cluster count is the sum of the two
    /// originals' counts.
    pub fn append(&mut self, other: &Self)
        requires
            old(self).wf(),
            other.wf(),
        ensures
            final(self).wf(),
            final(self).text() == old(self).text() + other.text(),
            final(self).graphemes() == graphemes_of(final(self).text()),
            graphemes_of(old(self).text() + other.text()) == old(self).graphemes()
                + other.graphemes() ==> final(self).count() == old(self).count() + other.count(),
    {
        let mut result = self.to_string();
        let tail = other.to_string();
        result.append(tail.as_str());
        self.fragments = str_to_fragments(result.as_str());
    }

    /// Remove and return the tail of the row starting at grapheme `at`,
    /// re-clustering both halves; when `at` is past the end, return an empty
    /// row and leave this one untouched.
    pub fn split(&mut self, at: usize) -> (r: Self)
        requires
            old(self).wf(),
        ensures
            final(self).wf(),
            r.wf(),
            at > old(self).count() ==> {
                &&& *final(self) == *old(self)
                &&& r.count() == 0
            },
            at <= old(self).count() ==> {
                &&& final(self).text() == old(self).graphemes().take(at as int).flatten()
                &&& final(self).graphemes() == graphemes_of(final(self).text())
                &&& r.text() == old(self).graphemes().skip(at as int).flatten()
                &&& r.graphemes() == graphemes_of(r.text())
            },
    {
        if at > self.fragments.len() {
            return Self::default();
        }
        let head = self.collect_text(0, at);
        let tail = self.collect_text(at, self.fragments.len());
        proof {
            let gs = self.graphemes();
            assert(gs.subrange(0, at as int) =~= gs.take(at as int));
            assert(gs.subrange(at as int, gs.len() as int) =~= gs.skip(at as int));
        }
        self.fragments = str_to_fragments(head.as_str());
        Self { fragments: str_to_fragments(tail.as_str()) }
    }
}

impl Default for Line {
    /// An empty row.
    fn default() -> (r: Self)
        ensures
            r.wf(),
            r.count() == 0,
            r.text() == Seq::<char>::empty(),
    {
        let r = Line::from("");
        proof {
            reveal_strlit("");
            assert(r.text() =~= Seq::<char>::empty());
            lemma_wf_empty_text(&r);
        }
        r
    }
}

/// Content round trip: building a row from any string and reading its text
/// back yields that string exactly. The hypotheses are precisely what
/// `Line::from` and `Line::to_string` ensure of their results; the
/// zero-width display substitution affects rendering only, never the
/// stored text.
pub proof fn lemma_from_to_string_round_trip(s: Seq<char>, l: Line, r: Seq<char>)
    requires
        l.text() == s,
        r == l.text(),
    ensures
        r == s,
{
}

/// Each step of the cursor through a row moves the screen column right by the
/// width of exactly one cluster, which is one column or two: for any index
/// `i` within the row, `width_until(i + 1) - width_until(i)` is 1 or 2.
pub proof fn lemma_width_until_step(l: &Line, i: int)
    requires
        l.wf(),
        0 <= i < l.count(),
    ensures
        l.width_until_spec(i) + 1 <= l.width_until_spec(i + 1),
        l.width_until_spec(i + 1) <= l.width_until_spec(i) + 2,
{
    assert(width_upto(l.graphemes(), i + 1) == width_upto(l.graphemes(), i) + cluster_cols(
        l.graphemes()[i],
    ));
}

/// Inserting a character before the cluster at `i` and then deleting the
/// grapheme at `i` restores the original text and with it the original
/// grapheme count, provided the insertion decomposed cleanly: into the
/// original clusters with exactly one new cluster standing at `i`. (Without
/// that proviso the round trip can lose a cluster: inserting a character
/// that merges with a neighbouring cluster makes the grapheme at `i` cover
/// more than the inserted character.)
///
/// `inserted` stands for the row after `insert_char(c, i)` and `deleted` for
/// the row after the following `delete(i)`, each related to its predecessor
/// as the respective operation ensures.
pub proof fn lemma_insert_then_delete_restores_count(
    l: &Line,
    inserted: &Line,
    deleted: &Line,
    c: char,
    i: int,
)
    requires
        l.wf(),
        0 <= i <= l.count(),
        inserted.wf(),
        inserted.text() == l.insert_text(c, i),
        inserted.count() == l.count() + 1,
        inserted.graphemes().take(i) == l.graphemes().take(i),
        inserted.graphemes().skip(i + 1) == l.graphemes().skip(i),
        deleted.wf(),
        deleted.text() == inserted.remove_text(i),
    ensures
        deleted.text() == l.text(),
        deleted.count() == l.count(),
{
    let gs = l.graphemes();
    let gs1 = inserted.graphemes();
    assert(gs1.remove(i) =~= gs1.take(i) + gs1.skip(i + 1));
    assert(gs1.take(i) + gs1.skip(i + 1) =~= gs.take(i) + gs.skip(i));
    lemma_flatten_concat(gs.take(i), gs.skip(i));
    assert(gs.take(i) + gs.skip(i) =~= gs);
    assert(deleted.text() == l.text());
    assert(deleted.graphemes() == graphemes_of(deleted.text()));
    assert(graphemes_of(l.text()) == gs);
}

/// A well-formed row whose text is empty holds no cluster: clusters are
/// nonempty, so one cluster alone would make the text nonempty.
proof fn lemma_wf_empty_text(l: &Line)
    requires
        l.wf(),
        l.text().len() == 0,
    ensures
        l.count() == 0,
{
    if l.count() > 0 {
        l.graphemes().lemma_flatten_length_ge_single_element_length(0);
        l.graphemes().lemma_flatten_and_flatten_alt_are_equivalent();
        assert(l.fragments@[0].wf());
        assert(false);
    }
}

/// Decompose a string into fragments, one per grapheme cluster.
fn str_to_fragments(line_str: &str) -> (r: Vec<TextFragment>)
    ensures
        r@.map_values(|f: TextFragment| f.grapheme@) == graphemes_of(line_str@),
        graphemes_of(line_str@).flatten() == line_str@,
        forall|i: int| 0 <= i < r@.len() ==> r@[i].wf(),
{
    let gs = split_graphemes(line_str);
    let ghost clusters = gs@.map_values(|g: String| g@);
    let mut fragments: Vec<TextFragment> = Vec::new();
    let mut idx: usize = 0;
    while idx < gs.len()
        invariant
            idx <= gs@.len(),
            clusters == gs@.map_values(|g: String| g@),
            clusters == graphemes_of(line_str@),
            forall|i: int| 0 <= i < gs@.len() ==> gs@[i]@.len() > 0,
            fragments@.len() == idx,
            forall|i: int| 0 <= i < idx ==> fragments@[i].wf(),
            forall|i: int| 0 <= i < idx ==> fragments@[i].grapheme@ == clusters[i],
        decreases gs@.len() - idx,
    {
        let g = gs[idx].clone();
        let w = display_width(&g);
        let rendered_width = if w >= 2 {
            GraphemeWidth::Full
        } else {
            GraphemeWidth::Half
        };
        let replacement = if w == 0 {
            Some(ZERO_WIDTH_SUBSTITUTE)
        } else {
            None
        };
        fragments.push(TextFragment { grapheme: g, rendered_width, replacement });
        idx = idx + 1;
    }
    proof {
        assert(fragments@.map_values(|f: TextFragment| f.grapheme@) =~= clusters);
    }
    fragments
}

} // verus!
