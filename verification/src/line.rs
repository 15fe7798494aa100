//! One line of text, decomposed into grapheme clusters with terminal column
//! accounting. The canonical string is the single source of truth: every edit
//! rebuilds the string and re-derives the cluster sequence from it, so the
//! decomposition can never drift from the text.

use vstd::prelude::*;
use vstd::seq_lib::*;

use crate::graphemewidth::GraphemeWidth;
use crate::unicode::{
    char_is_control, char_is_whitespace, display_width, graphemes_of, is_ctrl_char, is_white_char,
    push_char, split_graphemes, str_display_width,
};

verus! {

/// One grapheme cluster: its literal text, its column width class, and an
/// optional single-character display substitution.
pub struct TextFragment {
    pub grapheme: String,
    pub rendered_width: GraphemeWidth,
    pub replacement: Option<char>,
}

/// True when every character of the cluster has the `White_Space` property.
pub open spec fn whitespace_only(g: Seq<char>) -> bool {
    forall|i: int| 0 <= i < g.len() ==> is_white_char(#[trigger] g[i])
}

/// The display substitution the line model picks for a grapheme cluster:
/// space and tab render as a plain space, other visible whitespace as an open
/// box, a lone control character as a placeholder rectangle, any other
/// zero-width cluster as a middle dot.
pub open spec fn replacement_spec(g: Seq<char>) -> Option<char> {
    if g.len() == 1 && g[0] == ' ' {
        Some(' ')
    } else if g.len() == 1 && g[0] == '\t' {
        Some(' ')
    } else if display_width(g) > 0 && whitespace_only(g) {
        Some('\u{2423}')
    } else if display_width(g) == 0 {
        if g.len() == 1 && is_ctrl_char(g[0]) {
            Some('\u{25AF}')
        } else {
            Some('\u{00B7}')
        }
    } else {
        None
    }
}

/// The width class of a cluster: substituted clusters are forced to one
/// column; otherwise width zero or one is `Half` and anything wider is `Full`.
pub open spec fn width_class_spec(g: Seq<char>) -> GraphemeWidth {
    if replacement_spec(g) is Some {
        GraphemeWidth::Half
    } else if display_width(g) <= 1 {
        GraphemeWidth::Half
    } else {
        GraphemeWidth::Full
    }
}

/// A fragment whose width and substitution are the ones derived from its text.
pub open spec fn frag_wf(f: TextFragment) -> bool {
    &&& f.replacement == replacement_spec(f.grapheme@)
    &&& f.rendered_width == width_class_spec(f.grapheme@)
}

/// The cluster texts of a fragment sequence.
pub open spec fn frag_graphemes(v: Seq<TextFragment>) -> Seq<Seq<char>> {
    v.map_values(|f: TextFragment| f.grapheme@)
}

/// What one fragment contributes to the rendered line: its substitution
/// character if it has one, else its literal text.
pub open spec fn fragment_render(f: TextFragment) -> Seq<char> {
    match f.replacement {
        Some(c) => seq![c],
        None => f.grapheme@,
    }
}

/// A line of text as an ordered sequence of grapheme clusters.
pub struct Line {
    pub fragments: Vec<TextFragment>,
}

impl Line {
    /// The grapheme clusters of the line, as character sequences.
    pub open spec fn grapheme_seq(self) -> Seq<Seq<char>> {
        frag_graphemes(self.fragments@)
    }

    /// The canonical text of the line: the concatenation of its clusters.
    pub open spec fn text(self) -> Seq<char> {
        self.grapheme_seq().flatten()
    }

    /// Well-formed: the fragment sequence is exactly the grapheme
    /// decomposition of the canonical text, each fragment nonempty and
    /// carrying the width and substitution derived from its cluster.
    pub open spec fn wf(self) -> bool {
        &&& self.grapheme_seq() == graphemes_of(self.text())
        &&& forall|i: int|
            0 <= i < self.fragments@.len() ==> frag_wf(#[trigger] self.fragments@[i])
        &&& forall|i: int|
            0 <= i < self.fragments@.len() ==> (#[trigger] self.fragments@[i]).grapheme@.len() > 0
    }

    /// The columns occupied by the first `i` fragments.
    pub open spec fn width_prefix(self, i: int) -> nat
        decreases i,
    {
        if i <= 0 {
            0
        } else {
            self.width_prefix(i - 1) + self.fragments@[i - 1].rendered_width.columns()
        }
    }

    /// The columns occupied by the whole line.
    pub open spec fn total_width(self) -> nat {
        self.width_prefix(self.fragments@.len() as int)
    }

    /// The rendered output of the whole line: every cluster once, in order,
    /// substitutions applied.
    pub open spec fn render_all(self) -> Seq<char> {
        self.fragments@.map_values(|f: TextFragment| fragment_render(f)).flatten()
    }

    /// A running column position advanced by one width class, stopping at
    /// `usize::MAX` as the executable accounting does.
    pub open spec fn sat_add_cols(pos: nat, w: GraphemeWidth) -> nat {
        if pos + w.columns() <= usize::MAX {
            (pos + w.columns()) as nat
        } else {
            usize::MAX as nat
        }
    }

    /// The rendered output of the walk over fragments `i..`, starting at
    /// column `pos`, restricted to the column window `[start, end)`: clusters
    /// that straddle a window edge render as an ellipsis, clusters fully
    /// inside render their substitution or literal text, others render
    /// nothing.
    pub open spec fn visible_from(self, i: int, pos: nat, start: nat, end: nat) -> Seq<char>
        decreases self.fragments@.len() - i,
    {
        if i < 0 || i >= self.fragments@.len() || pos >= end {
            Seq::empty()
        } else {
            let f = self.fragments@[i];
            let fe = Self::sat_add_cols(pos, f.rendered_width);
            let piece = if fe > start {
                if fe > end || pos < start {
                    seq!['\u{22EF}']
                } else {
                    fragment_render(f)
                }
            } else {
                Seq::empty()
            };
            piece + self.visible_from(i + 1, fe, start, end)
        }
    }

    /// The rendered output covering exactly the column window `[start, end)`.
    pub open spec fn visible_spec(self, start: nat, end: nat) -> Seq<char> {
        if start >= end {
            Seq::empty()
        } else {
            self.visible_from(0, 0, start, end)
        }
    }

    /// Decomposes `line_str` into grapheme clusters.
    pub fn from(line_str: &str) -> (r: Self)
        ensures
            r.wf(),
            r.text() == line_str@,
    {
        let fragments = Self::str_to_fragments(line_str);
        let r = Line { fragments };
        proof {
            assert(r.text() == line_str@);
        }
        r
    }

    /// An empty line.
    pub fn default() -> (r: Self)
        ensures
            r.wf(),
            r.text() == Seq::<char>::empty(),
            r.fragments@.len() == 0,
    {
        let r = Self::from("");
        proof {
            reveal_strlit("");
            assert(r.text() =~= Seq::<char>::empty());
            assert(r.grapheme_seq().len() == 0) by {
                if r.grapheme_seq().len() > 0 {
                    r.grapheme_seq().lemma_flatten_length_ge_single_element_length(0);
                    r.grapheme_seq().lemma_flatten_and_flatten_alt_are_equivalent();
                }
            }
        }
        r
    }

    fn str_to_fragments(line_str: &str) -> (r: Vec<TextFragment>)
        ensures
            frag_graphemes(r@) == graphemes_of(line_str@),
            graphemes_of(line_str@).flatten() == line_str@,
            forall|i: int| 0 <= i < r@.len() ==> frag_wf(#[trigger] r@[i]),
            forall|i: int| 0 <= i < r@.len() ==> (#[trigger] r@[i]).grapheme@.len() > 0,
    {
        let gs = split_graphemes(line_str);
        let mut fragments: Vec<TextFragment> = Vec::new();
        let n = gs.len();
        let mut i: usize = 0;
        while i < n
            invariant
                n == gs@.len(),
                gs.deep_view() == graphemes_of(line_str@),
                graphemes_of(line_str@).flatten() == line_str@,
                forall|k: int| 0 <= k < gs@.len() ==> gs.deep_view()[k].len() > 0,
                i <= n,
                fragments@.len() == i,
                forall|k: int|
                    0 <= k < i ==> (#[trigger] fragments@[k]).grapheme@ == gs.deep_view()[k],
                forall|k: int| 0 <= k < i ==> frag_wf(#[trigger] fragments@[k]),
            decreases n - i,
        {
            let g: String = gs[i].clone();
            let replacement = Self::replacement_character(g.as_str());
            let rendered_width = match replacement {
                Some(_) => GraphemeWidth::Half,
                None => {
                    let w = str_display_width(g.as_str());
                    if w <= 1 {
                        GraphemeWidth::Half
                    } else {
                        GraphemeWidth::Full
                    }
                },
            };
            let frag = TextFragment { grapheme: g, rendered_width, replacement };
            fragments.push(frag);
            i += 1;
        }
        proof {
            assert(frag_graphemes(fragments@) =~= graphemes_of(line_str@));
        }
        fragments
    }

    /// The display substitution for one grapheme cluster, if any.
    pub fn replacement_character(for_str: &str) -> (r: Option<char>)
        ensures
            r == replacement_spec(for_str@),
    {
        let w = str_display_width(for_str);
        let n = for_str.unicode_len();
        if n == 1 {
            let c = for_str.get_char(0);
            if c == ' ' {
                return Some(' ');
            }
            if c == '\t' {
                return Some(' ');
            }
        }
        if w > 0 && Self::is_blank(for_str) {
            return Some('\u{2423}');
        }
        if w == 0 {
            if n == 1 {
                let c = for_str.get_char(0);
                if char_is_control(c) {
                    return Some('\u{25AF}');
                }
            }
            return Some('\u{00B7}');
        }
        None
    }

    fn is_blank(s: &str) -> (r: bool)
        ensures
            r == whitespace_only(s@),
    {
        let n = s.unicode_len();
        let mut i: usize = 0;
        while i < n
            invariant
                n == s@.len(),
                i <= n,
                forall|j: int| 0 <= j < i ==> is_white_char(#[trigger] s@[j]),
            decreases n - i,
        {
            let c = s.get_char(i);
            if !char_is_whitespace(c) {
                return false;
            }
            i += 1;
        }
        true
    }

    /// The number of grapheme clusters (not bytes, not columns).
    pub fn grapheme_count(&self) -> (r: usize)
        ensures
            r == self.fragments@.len(),
    {
        self.fragments.len()
    }

    /// The column at which cluster `grapheme_index` begins: the summed widths
    /// of the clusters before it, stopping at `usize::MAX`.
    pub fn width_until(&self, grapheme_index: usize) -> (r: usize)
        ensures
            ({
                let k = if grapheme_index <= self.fragments@.len() {
                    grapheme_index as int
                } else {
                    self.fragments@.len() as int
                };
                &&& self.width_prefix(k) <= usize::MAX ==> r == self.width_prefix(k)
                &&& self.width_prefix(k) > usize::MAX ==> r == usize::MAX
            }),
    {
        let n = self.fragments.len();
        let k = if grapheme_index < n {
            grapheme_index
        } else {
            n
        };
        let mut total: usize = 0;
        let mut i: usize = 0;
        while i < k
            invariant
                k <= n,
                n == self.fragments@.len(),
                i <= k,
                self.width_prefix(i as int) <= usize::MAX ==> total == self.width_prefix(i as int),
                self.width_prefix(i as int) > usize::MAX ==> total == usize::MAX,
            decreases k - i,
        {
            let w = self.fragments[i].rendered_width;
            total = w.saturating_add(total);
            i += 1;
        }
        total
    }

    /// The column width of the whole line.
    pub fn width(&self) -> (r: usize)
        ensures
            self.total_width() <= usize::MAX ==> r == self.total_width(),
            self.total_width() > usize::MAX ==> r == usize::MAX,
    {
        let count = self.grapheme_count();
        self.width_until(count)
    }

    /// The rendered substring covering exactly the columns `[start, end)`.
    /// With the full window `[0, width)` this reproduces every cluster exactly
    /// once, in order, substitutions applied.
    pub fn get_visible_graphemes(&self, start: usize, end: usize) -> (r: String)
        ensures
            r@ == self.visible_spec(start as nat, end as nat),
            (start == 0 && self.total_width() <= usize::MAX && end as nat == self.total_width())
                ==> r@ == self.render_all(),
    {
        let mut result = String::new();
        if start >= end {
            proof {
                if start == 0 && end as nat == self.total_width() {
                    self.lemma_width_prefix_at_least(self.fragments@.len() as int);
                    assert(self.fragments@.len() == 0);
                    assert(self.fragments@.map_values(|f: TextFragment| fragment_render(f))
                        =~= Seq::<Seq<char>>::empty());
                    assert(self.render_all() =~= Seq::<char>::empty());
                }
            }
            return result;
        }
        let n = self.fragments.len();
        let mut i: usize = 0;
        let mut pos: usize = 0;
        while i < n && pos < end
            invariant
                n == self.fragments@.len(),
                i <= n,
                end > start,
                result@ + self.visible_from(i as int, pos as nat, start as nat, end as nat)
                    == self.visible_from(0, 0, start as nat, end as nat),
            decreases n - i,
        {
            let f = &self.fragments[i];
            let fe = f.rendered_width.saturating_add(pos);
            if fe > start {
                if fe > end || pos < start {
                    push_char(&mut result, '\u{22EF}');
                } else {
                    match f.replacement {
                        Some(c) => push_char(&mut result, c),
                        None => result.append(f.grapheme.as_str()),
                    }
                }
            }
            pos = fe;
            i += 1;
        }
        proof {
            assert(self.visible_from(i as int, pos as nat, start as nat, end as nat)
                =~= Seq::<char>::empty());
            assert(result@ =~= self.visible_spec(start as nat, end as nat));
            if start == 0 && self.total_width() <= usize::MAX && end as nat == self.total_width() {
                self.lemma_visible_full(0, 0);
                assert(self.fragments@.skip(0) =~= self.fragments@);
                assert(result@ == self.render_all());
            }
        }
        result
    }

    /// Splices `character` in before cluster `at` (or at the end when `at` is
    /// out of range) and re-derives the cluster sequence from the new text.
    pub fn insert_char(&mut self, character: char, at: usize)
        ensures
            final(self).wf(),
            ({
                let gs = old(self).grapheme_seq();
                let k = if at <= gs.len() {
                    at as int
                } else {
                    gs.len() as int
                };
                final(self).text() == gs.take(k).flatten() + seq![character] + gs.skip(k).flatten()
            }),
    {
        let ghost gs = self.grapheme_seq();
        let mut result = String::new();
        let n = self.fragments.len();
        let mut i: usize = 0;
        while i < n
            invariant
                n == self.fragments@.len(),
                gs == self.grapheme_seq(),
                i <= n,
                at >= i ==> result@ == gs.take(i as int).flatten(),
                at < i ==> result@ == gs.take(at as int).flatten() + seq![character]
                    + gs.subrange(at as int, i as int).flatten(),
            decreases n - i,
        {
            if i == at {
                push_char(&mut result, character);
                proof {
                    assert(gs.subrange(at as int, at as int) =~= Seq::<Seq<char>>::empty());
                    lemma_flatten_empty::<char>();
                }
            }
            result.append(self.fragments[i].grapheme.as_str());
            proof {
                lemma_flatten_subrange_push(gs, if at <= i { at as int } else { 0 }, i as int);
                if at > i {
                    assert(gs.take(i as int) =~= gs.subrange(0, i as int));
                    assert(gs.take(i + 1 as int) =~= gs.subrange(0, i + 1 as int));
                }
            }
            i += 1;
        }
        if at >= n {
            push_char(&mut result, character);
            proof {
                assert(gs.take(n as int) =~= gs);
                assert(gs.skip(n as int) =~= Seq::<Seq<char>>::empty());
                lemma_flatten_empty::<char>();
            }
        }
        proof {
            if at < n {
                assert(gs.subrange(at as int, n as int) =~= gs.skip(at as int));
            }
        }
        self.fragments = Self::str_to_fragments(result.as_str());
        proof {
            assert(final(self).text() == result@);
        }
    }

    /// Appends `character` after the last cluster.
    pub fn append_char(&mut self, character: char)
        ensures
            final(self).wf(),
            final(self).text() == old(self).text() + seq![character],
    {
        let count = self.grapheme_count();
        let ghost gs = self.grapheme_seq();
        self.insert_char(character, count);
        proof {
            assert(gs.take(gs.len() as int) =~= gs);
            assert(gs.skip(gs.len() as int) =~= Seq::<Seq<char>>::empty());
            lemma_flatten_empty::<char>();
            assert(final(self).text() =~= old(self).text() + seq![character]);
        }
    }

    /// Removes cluster `at` and re-derives the cluster sequence; a no-op when
    /// `at` is out of range.
    pub fn delete(&mut self, at: usize)
        ensures
            at >= old(self).fragments@.len() ==> *final(self) == *old(self),
            at < old(self).fragments@.len() ==> final(self).wf() && final(self).text()
                == old(self).grapheme_seq().remove(at as int).flatten(),
    {
        let n = self.fragments.len();
        if at >= n {
            return;
        }
        let ghost gs = self.grapheme_seq();
        let mut result = String::new();
        let mut i: usize = 0;
        while i < n
            invariant
                n == self.fragments@.len(),
                gs == self.grapheme_seq(),
                at < n,
                i <= n,
                i <= at ==> result@ == gs.take(i as int).flatten(),
                i > at ==> result@ == gs.take(at as int).flatten()
                    + gs.subrange(at + 1 as int, i as int).flatten(),
            decreases n - i,
        {
            if i != at {
                result.append(self.fragments[i].grapheme.as_str());
                proof {
                    if i < at {
                        lemma_flatten_subrange_push(gs, 0, i as int);
                        assert(gs.take(i as int) =~= gs.subrange(0, i as int));
                        assert(gs.take(i + 1 as int) =~= gs.subrange(0, i + 1 as int));
                    } else {
                        lemma_flatten_subrange_push(gs, at + 1 as int, i as int);
                    }
                }
            } else {
                proof {
                    assert(gs.subrange(at + 1 as int, at + 1 as int)
                        =~= Seq::<Seq<char>>::empty());
                    lemma_flatten_empty::<char>();
                    assert(gs.take(at as int) =~= gs.subrange(0, at as int));
                }
            }
            i += 1;
        }
        proof {
            assert(gs.remove(at as int) =~= gs.take(at as int) + gs.subrange(at + 1 as int, n as int));
            lemma_flatten_concat(gs.take(at as int), gs.subrange(at + 1 as int, n as int));
        }
        self.fragments = Self::str_to_fragments(result.as_str());
    }

    /// Removes the last cluster; a no-op on an empty line.
    pub fn delete_last(&mut self)
        ensures
            old(self).fragments@.len() == 0 ==> *final(self) == *old(self),
            old(self).fragments@.len() > 0 ==> final(self).wf() && final(self).text()
                == old(self).grapheme_seq().remove(old(self).grapheme_seq().len() - 1).flatten(),
    {
        let count = self.grapheme_count();
        if count == 0 {
            self.delete(0);
        } else {
            self.delete(count - 1);
        }
    }

    /// The canonical text of the line as a string.
    pub fn to_string(&self) -> (r: String)
        ensures
            r@ == self.text(),
    {
        let ghost gs = self.grapheme_seq();
        let mut result = String::new();
        let n = self.fragments.len();
        let mut i: usize = 0;
        while i < n
            invariant
                n == self.fragments@.len(),
                gs == self.grapheme_seq(),
                i <= n,
                result@ == gs.take(i as int).flatten(),
            decreases n - i,
        {
            result.append(self.fragments[i].grapheme.as_str());
            proof {
                lemma_flatten_subrange_push(gs, 0, i as int);
                assert(gs.take(i as int) =~= gs.subrange(0, i as int));
                assert(gs.take(i + 1 as int) =~= gs.subrange(0, i + 1 as int));
            }
            i += 1;
        }
        proof {
            assert(gs.take(n as int) =~= gs);
        }
        result
    }

    /// Concatenates `other` onto this line and re-derives the cluster
    /// sequence from the combined text.
    pub fn append(&mut self, other: &Self)
        ensures
            final(self).wf(),
            final(self).text() == old(self).text() + other.text(),
    {
        let mut concat = self.to_string();
        let other_str = other.to_string();
        concat.append(other_str.as_str());
        self.fragments = Self::str_to_fragments(concat.as_str());
    }

    /// Truncates this line to the clusters before `at` and returns the
    /// remainder, both re-derived from their texts; when `at` is past the end
    /// the line is unchanged and the remainder is empty.
    pub fn split(&mut self, at: usize) -> (r: Self)
        ensures
            at > old(self).fragments@.len() ==> *final(self) == *old(self) && r.wf() && r.text()
                == Seq::<char>::empty(),
            at <= old(self).fragments@.len() ==> {
                &&& final(self).wf()
                &&& r.wf()
                &&& final(self).text() == old(self).grapheme_seq().take(at as int).flatten()
                &&& r.text() == old(self).grapheme_seq().skip(at as int).flatten()
            },
    {
        let n = self.fragments.len();
        if at > n {
            return Self::default();
        }
        let ghost gs = self.grapheme_seq();
        let mut head = String::new();
        let mut i: usize = 0;
        while i < at
            invariant
                at <= n,
                n == self.fragments@.len(),
                gs == self.grapheme_seq(),
                i <= at,
                head@ == gs.take(i as int).flatten(),
            decreases at - i,
        {
            head.append(self.fragments[i].grapheme.as_str());
            proof {
                lemma_flatten_subrange_push(gs, 0, i as int);
                assert(gs.take(i as int) =~= gs.subrange(0, i as int));
                assert(gs.take(i + 1 as int) =~= gs.subrange(0, i + 1 as int));
            }
            i += 1;
        }
        let mut tail = String::new();
        let mut j: usize = at;
        while j < n
            invariant
                at <= n,
                n == self.fragments@.len(),
                gs == self.grapheme_seq(),
                at <= j <= n,
                tail@ == gs.subrange(at as int, j as int).flatten(),
            decreases n - j,
        {
            tail.append(self.fragments[j].grapheme.as_str());
            proof {
                lemma_flatten_subrange_push(gs, at as int, j as int);
            }
            j += 1;
        }
        proof {
            assert(gs.subrange(at as int, at as int) =~= Seq::<Seq<char>>::empty());
            lemma_flatten_empty::<char>();
            assert(gs.subrange(at as int, n as int) =~= gs.skip(at as int));
        }
        self.fragments = Self::str_to_fragments(head.as_str());
        Line { fragments: Self::str_to_fragments(tail.as_str()) }
    }

    /// A well-formed line is never wider than twice its text length: every
    /// cluster holds at least one character and occupies at most two columns.
    pub proof fn lemma_total_width_bounded(self)
        requires
            self.wf(),
        ensures
            self.total_width() <= 2 * self.text().len(),
    {
        let n = self.fragments@.len() as int;
        self.lemma_width_prefix_at_most_double(n);
        assert(forall|i: int|
            0 <= i < n ==> (#[trigger] self.grapheme_seq()[i]).len() > 0);
        lemma_flatten_len_at_least(self.grapheme_seq());
    }

    proof fn lemma_width_prefix_at_most_double(self, i: int)
        requires
            0 <= i,
        ensures
            self.width_prefix(i) <= 2 * i,
        decreases i,
    {
        if i > 0 {
            self.lemma_width_prefix_at_most_double(i - 1);
        }
    }

    proof fn lemma_width_prefix_at_least(self, i: int)
        requires
            0 <= i,
        ensures
            self.width_prefix(i) >= i,
        decreases i,
    {
        if i > 0 {
            self.lemma_width_prefix_at_least(i - 1);
        }
    }

    proof fn lemma_width_prefix_monotone(self, i: int, j: int)
        requires
            0 <= i <= j,
        ensures
            self.width_prefix(i) + (j - i) <= self.width_prefix(j),
        decreases j - i,
    {
        if i < j {
            self.lemma_width_prefix_monotone(i + 1, j);
        }
    }

    /// Walking the full column window renders every remaining cluster, in
    /// order, with substitutions applied and never an ellipsis.
    proof fn lemma_visible_full(self, i: int, pos: nat)
        requires
            0 <= i <= self.fragments@.len(),
            pos == self.width_prefix(i),
            self.total_width() <= usize::MAX,
            self.total_width() > 0,
        ensures
            self.visible_from(i, pos, 0, self.total_width()) == self.fragments@.skip(i).map_values(
                |f: TextFragment| fragment_render(f),
            ).flatten(),
        decreases self.fragments@.len() - i,
    {
        let n = self.fragments@.len() as int;
        let render = |f: TextFragment| fragment_render(f);
        if i == n {
            assert(pos >= self.total_width()) by {
                self.lemma_width_prefix_monotone(i, n);
            }
            assert(self.fragments@.skip(i).map_values(render) =~= Seq::<Seq<char>>::empty());
            lemma_flatten_empty::<char>();
        } else {
            let f = self.fragments@[i];
            assert(pos + f.rendered_width.columns() == self.width_prefix(i + 1));
            assert(self.width_prefix(i + 1) <= self.total_width()) by {
                self.lemma_width_prefix_monotone(i + 1, n);
            }
            let fe = Self::sat_add_cols(pos, f.rendered_width);
            assert(fe == self.width_prefix(i + 1));
            assert(pos < self.total_width()) by {
                self.lemma_width_prefix_monotone(i + 1, n);
            }
            self.lemma_visible_full(i + 1, fe);
            assert(self.fragments@.skip(i).map_values(render).len() > 0);
            assert(self.fragments@.skip(i).map_values(render).drop_first()
                =~= self.fragments@.skip(i + 1).map_values(render));
            assert(self.fragments@.skip(i).map_values(render).first() == fragment_render(f));
            assert(self.fragments@.skip(i).map_values(render).flatten() == fragment_render(f)
                + self.fragments@.skip(i + 1).map_values(render).flatten());
        }
    }
}

/// A sequence of nonempty clusters is no longer than its flattened text.
proof fn lemma_flatten_len_at_least(gs: Seq<Seq<char>>)
    requires
        forall|i: int| 0 <= i < gs.len() ==> (#[trigger] gs[i]).len() > 0,
    ensures
        gs.flatten().len() >= gs.len(),
    decreases gs.len(),
{
    if gs.len() > 0 {
        assert(forall|i: int|
            0 <= i < gs.drop_first().len() ==> (#[trigger] gs.drop_first()[i]).len() > 0);
        lemma_flatten_len_at_least(gs.drop_first());
    }
}

/// Flattening an empty sequence of sequences yields the empty sequence.
proof fn lemma_flatten_empty<A>()
    ensures
        Seq::<Seq<A>>::empty().flatten() == Seq::<A>::empty(),
{
}

/// Extending a slice of clusters by one more cluster extends its flattening
/// by that cluster's text.
proof fn lemma_flatten_subrange_push(gs: Seq<Seq<char>>, a: int, i: int)
    requires
        0 <= a <= i < gs.len(),
    ensures
        gs.subrange(a, i + 1).flatten() == gs.subrange(a, i).flatten() + gs[i],
{
    assert(gs.subrange(a, i + 1) =~= gs.subrange(a, i).push(gs[i]));
    gs.subrange(a, i).lemma_flatten_push(gs[i]);
}

/// Inserting one cluster at `at` and then deleting the cluster at that same
/// index restores the original text, provided the insertion left the
/// surrounding clusters intact: the line after the insertion decomposes into
/// the original clusters with exactly one new cluster at `at`.
pub proof fn lemma_insert_then_delete(before: Line, after: Line, inserted: Seq<char>, at: int)
    requires
        0 <= at <= before.grapheme_seq().len(),
        after.grapheme_seq() == before.grapheme_seq().insert(at, inserted),
    ensures
        after.grapheme_seq().remove(at).flatten() == before.text(),
{
    assert(after.grapheme_seq().remove(at) =~= before.grapheme_seq());
}

} // verus!
