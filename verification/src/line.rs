//! One line of text as an ordered sequence of display-ready fragments, one
//! per extended grapheme cluster.

use vstd::prelude::*;
use vstd::string::StringExecFns;
use crate::unicode::{
    char_control, char_whitespace, display_width, grapheme_segments, measured_width,
    split_graphemes,
};
use crate::strutil::str_to_chars;

verus! {

/// How many terminal columns a fragment occupies when drawn.
#[derive(Debug, Clone, Copy, PartialEq, Eq, Structural)]
pub enum GraphemeWidth {
    Half,
    Full,
}

/// One extended grapheme cluster: its exact text, its column class, and an
/// optional single-character glyph drawn in its place. Replacements are
/// render-only; the stored text is always the original cluster.
#[derive(Debug, Clone)]
pub struct TextFragment {
    pub content: String,
    pub render_width: GraphemeWidth,
    pub replacement: Option<char>,
}

/// The mathematical value of a fragment.
pub ghost struct FragModel {
    pub content: Seq<char>,
    pub width: GraphemeWidth,
    pub replacement: Option<char>,
}

impl View for TextFragment {
    type V = FragModel;

    open spec fn view(&self) -> FragModel {
        FragModel {
            content: self.content@,
            width: self.render_width,
            replacement: self.replacement,
        }
    }
}

impl DeepView for TextFragment {
    type V = FragModel;

    open spec fn deep_view(&self) -> FragModel {
        self@
    }
}

/// An ordered sequence of fragments; the line's text is the concatenation
/// of their contents.
#[derive(Debug)]
pub struct Line {
    pub fragments: Vec<TextFragment>,
}

impl View for Line {
    type V = Seq<FragModel>;

    open spec fn view(&self) -> Seq<FragModel> {
        self.fragments.deep_view()
    }
}

impl DeepView for Line {
    type V = Seq<FragModel>;

    open spec fn deep_view(&self) -> Seq<FragModel> {
        self@
    }
}

/// Columns taken by a fragment of the given class.
pub open spec fn width_cols(w: GraphemeWidth) -> nat {
    match w {
        GraphemeWidth::Half => 1,
        GraphemeWidth::Full => 2,
    }
}

/// Whether every character of `s` is whitespace.
pub open spec fn all_whitespace(s: Seq<char>) -> bool {
    forall|i: int| 0 <= i < s.len() ==> char_whitespace(s[i])
}

/// The replacement glyph a cluster is drawn with, if any: a literal space
/// stands as itself, a tab becomes a space, other visible whitespace becomes
/// an open-box marker, a lone control character a rectangle marker, any
/// other zero-width cluster a middle dot.
pub open spec fn frag_replacement(s: Seq<char>) -> Option<char> {
    if s == seq![' '] {
        None
    } else if s == seq!['\t'] {
        Some(' ')
    } else if display_width(s) > 0 && all_whitespace(s) {
        Some('\u{2423}')
    } else if display_width(s) == 0 {
        if s.len() == 1 && char_control(s[0]) {
            Some('\u{25AF}')
        } else {
            Some('\u{00B7}')
        }
    } else {
        None
    }
}

/// The column class of a cluster: replaced clusters and clusters measuring
/// at most one column are half width; wider clusters are full width.
pub open spec fn frag_width_class(s: Seq<char>) -> GraphemeWidth {
    if frag_replacement(s) is Some {
        GraphemeWidth::Half
    } else if display_width(s) <= 1 {
        GraphemeWidth::Half
    } else {
        GraphemeWidth::Full
    }
}

/// The fragment a cluster is classified into.
pub open spec fn frag_of(s: Seq<char>) -> FragModel {
    FragModel { content: s, width: frag_width_class(s), replacement: frag_replacement(s) }
}

/// The fragment sequence that segmenting and classifying `text` yields.
pub open spec fn fragments_of(text: Seq<char>) -> Seq<FragModel> {
    grapheme_segments(text).map_values(|s: Seq<char>| frag_of(s))
}

/// The text a fragment sequence reconstructs to.
pub open spec fn text_of(frags: Seq<FragModel>) -> Seq<char>
    decreases frags.len(),
{
    if frags.len() == 0 {
        Seq::empty()
    } else {
        frags[0].content + text_of(frags.drop_first())
    }
}

/// A fragment sequence is well formed when re-segmenting its own text
/// yields it back (idempotent segmentation).
pub open spec fn line_wf(frags: Seq<FragModel>) -> bool {
    frags == fragments_of(text_of(frags))
}

pub proof fn lemma_text_of_concat(a: Seq<FragModel>, b: Seq<FragModel>)
    ensures
        text_of(a + b) == text_of(a) + text_of(b),
    decreases a.len(),
{
    if a.len() == 0 {
        assert(a + b =~= b);
        assert(text_of(a) + text_of(b) =~= text_of(b));
    } else {
        assert((a + b).drop_first() =~= a.drop_first() + b);
        lemma_text_of_concat(a.drop_first(), b);
        assert(text_of(a + b) =~= text_of(a) + text_of(b));
    }
}

pub proof fn lemma_text_of_push(a: Seq<FragModel>, f: FragModel)
    ensures
        text_of(a.push(f)) == text_of(a) + f.content,
{
    assert(a.push(f) =~= a + seq![f]);
    lemma_text_of_concat(a, seq![f]);
    assert(seq![f].drop_first() =~= Seq::<FragModel>::empty());
    assert(text_of(Seq::<FragModel>::empty()) =~= Seq::<char>::empty());
    assert(text_of(seq![f]) =~= f.content + Seq::<char>::empty());
    assert(text_of(seq![f]) =~= f.content);
    assert(text_of(a.push(f)) =~= text_of(a) + f.content);
}

fn all_whitespace_exec(v: &Vec<char>) -> (r: bool)
    ensures
        r == all_whitespace(v@),
{
    for i in 0..v.len()
        invariant
            forall|j: int| 0 <= j < i ==> char_whitespace(v@[j]),
    {
        if !v[i].is_whitespace() {
            return false;
        }
    }
    true
}

/// Classifies one grapheme cluster into a fragment.
fn classify(content: String) -> (f: TextFragment)
    ensures
        f@ == frag_of(content@),
{
    let w = measured_width(content.as_str());
    let chars = str_to_chars(content.as_str());
    proof {
        if chars@.len() == 1 && chars@[0] == ' ' {
            assert(content@ =~= seq![' ']);
        }
        if chars@.len() == 1 && chars@[0] == '\t' {
            assert(content@ =~= seq!['\t']);
        }
    }
    let replacement: Option<char> = if chars.len() == 1 && chars[0] == ' ' {
        None
    } else if chars.len() == 1 && chars[0] == '\t' {
        Some(' ')
    } else if w > 0 && all_whitespace_exec(&chars) {
        Some('\u{2423}')
    } else if w == 0 {
        if chars.len() == 1 && chars[0].is_control() {
            Some('\u{25AF}')
        } else {
            Some('\u{00B7}')
        }
    } else {
        None
    };
    let render_width: GraphemeWidth = match replacement {
        Option::Some(_) => GraphemeWidth::Half,
        Option::None => if w <= 1 {
            GraphemeWidth::Half
        } else {
            GraphemeWidth::Full
        },
    };
    TextFragment { content, render_width, replacement }
}

/// Segments a string into classified fragments; their concatenated contents
/// reproduce the string exactly.
fn str_to_fragments(s: &str) -> (frags: Vec<TextFragment>)
    ensures
        frags.deep_view() == fragments_of(s@),
        text_of(frags.deep_view()) == s@,
        s@.len() == 0 ==> frags.deep_view() == Seq::<FragModel>::empty(),
{
    let segs = split_graphemes(s);
    let mut frags: Vec<TextFragment> = Vec::new();
    let n = segs.len();
    for i in 0..n
        invariant
            n == segs.len(),
            segs.deep_view() == grapheme_segments(s@),
            segs.deep_view().flatten() == s@,
            frags.deep_view().len() == i,
            forall|j: int|
                0 <= j < i ==> frags.deep_view()[j] == frag_of(segs.deep_view()[j]),
    {
        let ghost prev = frags.deep_view();
        let f = classify(segs[i].clone());
        frags.push(f);
        proof {
            assert(frags.deep_view() =~= prev.push(f.deep_view()));
        }
    }
    proof {
        assert(frags.deep_view() =~= fragments_of(s@));
        lemma_text_of_segments(segs.deep_view());
        assert(text_of(frags.deep_view()) == segs.deep_view().flatten());
        if s@.len() == 0 {
            lemma_segments_of_empty(segs.deep_view());
        }
    }
    frags
}

proof fn lemma_text_of_segments(segs: Seq<Seq<char>>)
    ensures
        text_of(segs.map_values(|s: Seq<char>| frag_of(s))) == segs.flatten(),
    decreases segs.len(),
{
    let m = segs.map_values(|s: Seq<char>| frag_of(s));
    if segs.len() == 0 {
        assert(text_of(m) =~= segs.flatten());
    } else {
        lemma_text_of_segments(segs.drop_first());
        assert(m.drop_first() =~= segs.drop_first().map_values(|s: Seq<char>| frag_of(s)));
        assert(segs.flatten() == segs.first() + segs.drop_first().flatten());
        assert(text_of(m) =~= segs.flatten());
    }
}

/// Addition capped at the largest machine word, mirroring the saturating
/// arithmetic the rendering walk uses.
pub open spec fn sat_add(a: nat, b: nat) -> nat {
    if a + b > usize::MAX as nat {
        usize::MAX as nat
    } else {
        a + b
    }
}

/// The column at which fragment `i` starts: the saturating sum of the
/// widths of the fragments before it.
pub open spec fn frag_pos(frags: Seq<FragModel>, i: int) -> nat
    decreases i,
{
    if i <= 0 {
        0
    } else {
        sat_add(frag_pos(frags, i - 1), width_cols(frags[i - 1].width))
    }
}

/// What one fragment contributes to the text drawn for the column range
/// `[start, end)` when it starts at column `pos`: nothing when it lies
/// outside the range, an ellipsis marker when it straddles either edge,
/// otherwise its replacement glyph or its content.
pub open spec fn piece_of(f: FragModel, pos: nat, start: nat, end: nat) -> Seq<char> {
    let fend = sat_add(pos, width_cols(f.width));
    if pos >= end || fend <= start {
        Seq::empty()
    } else if fend > end || pos < start {
        seq!['\u{22EF}']
    } else if f.replacement is Some {
        seq![f.replacement->0]
    } else {
        f.content
    }
}

/// The text drawn for the column range `[start, end)` by fragments laid
/// out from column `pos` on: the concatenation of their pieces.
pub open spec fn render_range(frags: Seq<FragModel>, pos: nat, start: nat, end: nat) -> Seq<char>
    decreases frags.len(),
{
    if frags.len() == 0 {
        Seq::empty()
    } else {
        piece_of(frags[0], pos, start, end) + render_range(
            frags.drop_first(),
            sat_add(pos, width_cols(frags[0].width)),
            start,
            end,
        )
    }
}

/// Once the layout position has reached the end of the range, nothing more
/// is drawn.
pub proof fn lemma_render_past_end(frags: Seq<FragModel>, pos: nat, start: nat, end: nat)
    requires
        pos >= end,
        end <= usize::MAX as nat,
    ensures
        render_range(frags, pos, start, end) == Seq::<char>::empty(),
    decreases frags.len(),
{
    if frags.len() == 0 {
    } else {
        lemma_render_past_end(
            frags.drop_first(),
            sat_add(pos, width_cols(frags[0].width)),
            start,
            end,
        );
        assert(render_range(frags, pos, start, end) =~= Seq::<char>::empty());
    }
}

impl Line {
    /// Builds a line by segmenting `line_str` into grapheme clusters.
    pub fn from(line_str: &str) -> (line: Line)
        ensures
            line@ == fragments_of(line_str@),
            text_of(line@) == line_str@,
            line_wf(line@),
            line_str@.len() == 0 ==> line@ == Seq::<FragModel>::empty(),
    {
        let fragments = str_to_fragments(line_str);
        Line { fragments }
    }

    /// The number of grapheme clusters on the line.
    pub fn len(&self) -> (n: usize)
        ensures
            n == self@.len(),
    {
        self.fragments.len()
    }

    /// The exact text of the line: all fragment contents, in order.
    pub fn to_string(&self) -> (s: String)
        ensures
            s@ == text_of(self@),
    {
        let mut s = String::new();
        let n = self.fragments.len();
        for i in 0..n
            invariant
                n == self.fragments.len(),
                s@ == text_of(self@.take(i as int)),
        {
            s.append(self.fragments[i].content.as_str());
            proof {
                assert(self@.take(i + 1).drop_last() =~= self@.take(i as int));
                assert(self@.take(i + 1) =~= self@.take(i as int).push(self@[i as int]));
                lemma_text_of_push(self@.take(i as int), self@[i as int]);
            }
        }
        proof {
            assert(self@.take(n as int) =~= self@);
        }
        s
    }

    /// The column at which the fragment at `index` would start; an `index`
    /// at or past the end gives the whole line's width.
    pub fn width_until(&self, index: usize) -> (w: usize)
        ensures
            w as nat == frag_pos(self@, if index as int <= self@.len() { index as int } else { self@.len() as int }),
    {
        let n = self.fragments.len();
        let m = if index < n {
            index
        } else {
            n
        };
        let mut w: usize = 0;
        for i in 0..m
            invariant
                m <= n,
                n == self.fragments.len(),
                w as nat == frag_pos(self@, i as int),
        {
            let cols: usize = match self.fragments[i].render_width {
                GraphemeWidth::Half => 1,
                GraphemeWidth::Full => 2,
            };
            w = w.saturating_add(cols);
        }
        w
    }

    /// The total width of the line in columns.
    pub fn width(&self) -> (w: usize)
        ensures
            w as nat == frag_pos(self@, self@.len() as int),
    {
        self.width_until(self.fragments.len())
    }

    /// The text drawn for the half-open column range `range`: fragments
    /// inside it appear as their glyph or replacement, a fragment cut by
    /// either edge appears as a single ellipsis marker, and an empty or
    /// reversed range draws nothing.
    pub fn get(&self, range: core::ops::Range<usize>) -> (s: String)
        ensures
            range.start > range.end ==> s@ == Seq::<char>::empty(),
            range.start <= range.end ==> s@ == render_range(
                self@,
                0,
                range.start as nat,
                range.end as nat,
            ),
    {
        if range.start > range.end {
            return String::new();
        }
        let start = range.start;
        let end = range.end;
        let ghost total = render_range(self@, 0, start as nat, end as nat);
        let mut result = String::new();
        let mut current_pos: usize = 0;
        let n = self.fragments.len();
        let mut i: usize = 0;
        proof {
            assert(self@.skip(0) =~= self@);
            assert(Seq::<char>::empty() + total =~= total);
        }
        while i < n
            invariant_except_break
                i <= n,
                n == self.fragments.len(),
                current_pos as nat == frag_pos(self@, i as int),
                result@ + render_range(self@.skip(i as int), current_pos as nat, start as nat, end as nat)
                    == total,
            ensures
                result@ == total,
            decreases n - i,
        {
            let ghost frags = self@;
            let ghost rem = frags.skip(i as int);
            proof {
                assert(rem.len() > 0);
                assert(rem[0] == frags[i as int]);
                assert(rem.drop_first() =~= frags.skip(i + 1));
            }
            if current_pos >= end {
                proof {
                    lemma_render_past_end(rem, current_pos as nat, start as nat, end as nat);
                    assert(result@ + Seq::<char>::empty() =~= result@);
                }
                break;
            }
            let f = &self.fragments[i];
            let w: usize = match f.render_width {
                GraphemeWidth::Half => 1,
                GraphemeWidth::Full => 2,
            };
            let str_end = current_pos.saturating_add(w);
            let ghost piece = piece_of(frags[i as int], current_pos as nat, start as nat, end as nat);
            let ghost before = result@;
            if str_end > start {
                if str_end > end || current_pos < start {
                    result.push('\u{22EF}');
                    proof {
                        assert(result@ =~= before + piece);
                    }
                } else if let Option::Some(r) = f.replacement {
                    result.push(r);
                    proof {
                        assert(result@ =~= before + piece);
                    }
                } else {
                    result.append(f.content.as_str());
                    proof {
                        assert(result@ =~= before + piece);
                    }
                }
            } else {
                proof {
                    assert(piece =~= Seq::<char>::empty());
                    assert(result@ =~= before + piece);
                }
            }
            proof {
                assert(render_range(rem, current_pos as nat, start as nat, end as nat) == piece
                    + render_range(frags.skip(i + 1), str_end as nat, start as nat, end as nat));
                assert((before + piece) + render_range(
                    frags.skip(i + 1),
                    str_end as nat,
                    start as nat,
                    end as nat,
                ) =~= before + (piece + render_range(
                    frags.skip(i + 1),
                    str_end as nat,
                    start as nat,
                    end as nat,
                )));
            }
            current_pos = str_end;
            i += 1;
        }
        result
    }

    /// The line's text with one character inserted immediately before the
    /// fragment at `idx`, or appended when `idx` is at or past the end.
    pub open spec fn text_with_insert(frags: Seq<FragModel>, c: char, idx: int) -> Seq<char> {
        if 0 <= idx < frags.len() {
            text_of(frags.take(idx)) + seq![c] + text_of(frags.skip(idx))
        } else {
            text_of(frags) + seq![c]
        }
    }

    /// The line's text with the fragment at `idx` removed; unchanged when
    /// `idx` is out of range.
    pub open spec fn text_without(frags: Seq<FragModel>, idx: int) -> Seq<char> {
        if 0 <= idx < frags.len() {
            text_of(frags.take(idx)) + text_of(frags.skip(idx + 1))
        } else {
            text_of(frags)
        }
    }

    /// Inserts `s` before the fragment at `idx` (or appends it) and fully
    /// re-segments, since the new character can change cluster boundaries.
    pub fn intert_char(&mut self, s: char, idx: usize)
        ensures
            final(self)@ == fragments_of(Self::text_with_insert(old(self)@, s, idx as int)),
            text_of(final(self)@) == Self::text_with_insert(old(self)@, s, idx as int),
            line_wf(final(self)@),
    {
        let n = self.fragments.len();
        let m = if idx < n {
            idx
        } else {
            n
        };
        let mut result = String::new();
        proof {
            assert(self@.take(0) =~= Seq::<FragModel>::empty());
            assert(text_of(Seq::<FragModel>::empty()) =~= Seq::<char>::empty());
        }
        for i in 0..m
            invariant
                m <= n,
                n == self.fragments.len(),
                result@ == text_of(self@.take(i as int)),
        {
            result.append(self.fragments[i].content.as_str());
            proof {
                assert(self@.take(i + 1) =~= self@.take(i as int).push(self@[i as int]));
                lemma_text_of_push(self@.take(i as int), self@[i as int]);
            }
        }
        result.push(s);
        let ghost with_char = result@;
        proof {
            assert(self@.take(m as int).skip(m as int) =~= Seq::<FragModel>::empty());
            assert(text_of(Seq::<FragModel>::empty()) =~= Seq::<char>::empty());
            assert(with_char + Seq::<char>::empty() =~= with_char);
        }
        for i in m..n
            invariant
                m <= n,
                n == self.fragments.len(),
                result@ == with_char + text_of(self@.take(i as int).skip(m as int)),
        {
            proof {
                assert(text_of(self@.take(m as int).skip(m as int)) =~= Seq::<char>::empty());
                assert(with_char + Seq::<char>::empty() =~= with_char);
            }
            result.append(self.fragments[i].content.as_str());
            proof {
                assert(self@.take(i + 1).skip(m as int) =~= self@.take(i as int).skip(
                    m as int,
                ).push(self@[i as int]));
                lemma_text_of_push(self@.take(i as int).skip(m as int), self@[i as int]);
            }
        }
        proof {
            assert(text_of(self@.take(m as int).skip(m as int)) =~= Seq::<char>::empty());
            assert(with_char + Seq::<char>::empty() =~= with_char);
            assert(self@.take(n as int) =~= self@);
            assert(self@.take(n as int).skip(m as int) =~= self@.skip(m as int));
            if idx < n {
                assert(result@ =~= Self::text_with_insert(self@, s, idx as int));
            } else {
                assert(self@.skip(n as int) =~= Seq::<FragModel>::empty());
                assert(text_of(self@.take(m as int)) + seq![s] + Seq::<char>::empty() =~= text_of(
                    self@,
                ) + seq![s]);
                assert(result@ =~= Self::text_with_insert(self@, s, idx as int));
            }
        }
        self.fragments = str_to_fragments(result.as_str());
    }

    /// Appends a character after the last fragment.
    pub fn append_char(&mut self, c: char)
        ensures
            final(self)@ == fragments_of(text_of(old(self)@) + seq![c]),
            text_of(final(self)@) == text_of(old(self)@) + seq![c],
            line_wf(final(self)@),
    {
        let n = self.fragments.len();
        self.intert_char(c, n);
    }

    /// Removes the fragment at `idx` and fully re-segments the remaining
    /// text; when `idx` is out of range a well-formed line is unchanged.
    pub fn delete(&mut self, idx: usize)
        ensures
            final(self)@ == fragments_of(Self::text_without(old(self)@, idx as int)),
            text_of(final(self)@) == Self::text_without(old(self)@, idx as int),
            line_wf(final(self)@),
            line_wf(old(self)@) && idx >= old(self)@.len() ==> final(self)@ == old(self)@,
    {
        let n = self.fragments.len();
        let mut result = String::new();
        proof {
            assert(self@.take(0) =~= Seq::<FragModel>::empty());
            assert(text_of(Seq::<FragModel>::empty()) =~= Seq::<char>::empty());
        }
        for i in 0..n
            invariant
                n == self.fragments.len(),
                result@ == (if i <= idx {
                    text_of(self@.take(i as int))
                } else {
                    text_of(self@.take(idx as int)) + text_of(self@.take(i as int).skip(idx + 1))
                }),
        {
            if i != idx {
                let ghost before = result@;
                result.append(self.fragments[i].content.as_str());
                proof {
                    if i < idx {
                        assert(self@.take(i + 1) =~= self@.take(i as int).push(self@[i as int]));
                        lemma_text_of_push(self@.take(i as int), self@[i as int]);
                    } else {
                        if i == idx + 1 {
                            assert(text_of(self@.take(idx as int + 1).skip(idx + 1)) =~= Seq::<
                                char,
                            >::empty());
                            assert(text_of(self@.take(idx as int)) + Seq::<char>::empty()
                                =~= text_of(self@.take(idx as int)));
                        }
                        assert(self@.take(i + 1).skip(idx + 1) =~= self@.take(i as int).skip(
                            idx + 1,
                        ).push(self@[i as int]));
                        lemma_text_of_push(self@.take(i as int).skip(idx + 1), self@[i as int]);
                    }
                }
            } else {
                proof {
                    assert(self@.take(idx as int + 1).skip(idx + 1) =~= Seq::<
                        FragModel,
                    >::empty());
                    assert(text_of(Seq::<FragModel>::empty()) =~= Seq::<char>::empty());
                    assert(text_of(self@.take(idx as int)) + Seq::<char>::empty() =~= text_of(
                        self@.take(idx as int),
                    ));
                }
            }
        }
        proof {
            assert(self@.take(n as int) =~= self@);
            if idx < n {
                assert(self@.take(n as int).skip(idx + 1) =~= self@.skip(idx + 1));
                assert(result@ == Self::text_without(self@, idx as int));
            } else {
                assert(result@ == Self::text_without(self@, idx as int));
            }
        }
        let ghost old_frags = self@;
        self.fragments = str_to_fragments(result.as_str());
        proof {
            if line_wf(old_frags) && idx >= old_frags.len() {
                assert(Self::text_without(old_frags, idx as int) == text_of(old_frags));
            }
        }
    }

    /// Removes the last fragment, when one exists.
    pub fn delete_last(&mut self)
        ensures
            old(self)@.len() == 0 ==> final(self)@ == old(self)@,
            old(self)@.len() > 0 ==> final(self)@ == fragments_of(
                Self::text_without(old(self)@, old(self)@.len() - 1),
            ),
    {
        let n = self.fragments.len();
        if n > 0 {
            self.delete(n - 1);
        }
    }

    /// Concatenates `other`'s text onto this line's and fully re-segments,
    /// since clusters can merge across the join point.
    pub fn append(&mut self, other: &Line)
        ensures
            final(self)@ == fragments_of(text_of(old(self)@) + text_of(other@)),
            text_of(final(self)@) == text_of(old(self)@) + text_of(other@),
            line_wf(final(self)@),
    {
        let mut tmp = self.to_string();
        let other_str = other.to_string();
        tmp.append(other_str.as_str());
        self.fragments = str_to_fragments(tmp.as_str());
    }

    /// Moves the fragments from `at` on into a new line, truncating this one
    /// to the fragments before `at`; an `at` at or past the end moves
    /// nothing. The split point is already a cluster boundary, so neither
    /// side is re-segmented.
    pub fn split(&mut self, at: usize) -> (rest: Line)
        ensures
            at as int >= old(self)@.len() ==> final(self)@ == old(self)@ && rest@ == Seq::<FragModel>::empty(),
            (at as int) < old(self)@.len() ==> final(self)@ == old(self)@.take(at as int) && rest@ == old(self)@.skip(at as int),
    {
        if at >= self.fragments.len() {
            let rest = Line { fragments: Vec::new() };
            proof {
                assert(rest@ =~= Seq::<FragModel>::empty());
            }
            return rest;
        }
        let tail = self.fragments.split_off(at);
        let rest = Line { fragments: tail };
        proof {
            assert(self@ =~= old(self)@.take(at as int));
            assert(rest@ =~= old(self)@.skip(at as int));
        }
        rest
    }
}

impl Default for Line {
    /// An empty line.
    fn default() -> (line: Line)
        ensures
            line@ == Seq::<FragModel>::empty(),
            line_wf(line@),
    {
        let line = Line::from("");
        proof {
            reveal_strlit("");
            assert(""@.len() == 0);
        }
        line
    }
}

/// The column at which fragment `i` starts when the layout begins at
/// column `pos` instead of zero.
pub open spec fn frag_pos_from(frags: Seq<FragModel>, pos: nat, i: int) -> nat
    decreases i,
{
    if i <= 0 {
        pos
    } else {
        sat_add(frag_pos_from(frags, pos, i - 1), width_cols(frags[i - 1].width))
    }
}

proof fn lemma_frag_pos_from_drop(frags: Seq<FragModel>, pos: nat, i: int)
    requires
        1 <= i <= frags.len(),
    ensures
        frag_pos_from(frags, pos, i) == frag_pos_from(
            frags.drop_first(),
            sat_add(pos, width_cols(frags[0].width)),
            i - 1,
        ),
    decreases i,
{
    let rest = frags.drop_first();
    let pos1 = sat_add(pos, width_cols(frags[0].width));
    if i == 1 {
        assert(frag_pos_from(frags, pos, 0) == pos);
        assert(frag_pos_from(rest, pos1, 0) == pos1);
    } else {
        lemma_frag_pos_from_drop(frags, pos, i - 1);
        assert(rest[i - 2] == frags[i - 1]);
        assert(frag_pos_from(frags, pos, i) == sat_add(
            frag_pos_from(frags, pos, i - 1),
            width_cols(frags[i - 1].width),
        ));
        assert(frag_pos_from(rest, pos1, i - 1) == sat_add(
            frag_pos_from(rest, pos1, i - 2),
            width_cols(rest[i - 2].width),
        ));
    }
}

proof fn lemma_frag_pos_from_zero(frags: Seq<FragModel>, i: int)
    requires
        0 <= i,
    ensures
        frag_pos_from(frags, 0, i) == frag_pos(frags, i),
    decreases i,
{
    if i > 0 {
        lemma_frag_pos_from_zero(frags, i - 1);
    }
}

/// The text drawn for a range splits at any fragment boundary: what the
/// fragments before `i` draw, then what the fragments from `i` on draw,
/// laid out from the column where fragment `i` starts.
pub proof fn lemma_render_split(frags: Seq<FragModel>, i: int, pos: nat, start: nat, end: nat)
    requires
        0 <= i <= frags.len(),
    ensures
        render_range(frags, pos, start, end) == render_range(frags.take(i), pos, start, end)
            + render_range(frags.skip(i), frag_pos_from(frags, pos, i), start, end),
    decreases i,
{
    if i == 0 {
        assert(frags.take(0) =~= Seq::<FragModel>::empty());
        assert(frags.skip(0) =~= frags);
        assert(Seq::<char>::empty() + render_range(frags, pos, start, end) =~= render_range(
            frags,
            pos,
            start,
            end,
        ));
    } else {
        let rest = frags.drop_first();
        let pos1 = sat_add(pos, width_cols(frags[0].width));
        lemma_render_split(rest, i - 1, pos1, start, end);
        lemma_frag_pos_from_drop(frags, pos, i);
        assert(rest.take(i - 1) =~= frags.take(i).drop_first());
        assert(rest.skip(i - 1) =~= frags.skip(i));
        assert(frags.take(i)[0] == frags[0]);
        assert(render_range(frags.take(i), pos, start, end) == piece_of(frags[0], pos, start, end)
            + render_range(rest.take(i - 1), pos1, start, end));
        assert((piece_of(frags[0], pos, start, end) + render_range(rest.take(i - 1), pos1, start, end))
            + render_range(frags.skip(i), frag_pos_from(frags, pos, i), start, end) =~= piece_of(
            frags[0],
            pos,
            start,
            end,
        ) + (render_range(rest.take(i - 1), pos1, start, end) + render_range(
            frags.skip(i),
            frag_pos_from(frags, pos, i),
            start,
            end,
        )));
    }
}

/// A full-width fragment that starts at column `pos` and straddles either
/// edge of the requested column range `[start, end)` is drawn as the single
/// ellipsis marker, never as a partial glyph.
pub proof fn lemma_wide_straddle_piece(f: FragModel, pos: nat, start: nat, end: nat)
    requires
        f.width == GraphemeWidth::Full,
        pos + 2 <= usize::MAX as nat,
        pos < end,
        pos + 2 > start,
        pos < start || pos + 2 > end,
    ensures
        piece_of(f, pos, start, end) == seq!['\u{22EF}'],
{
}

/// In the text drawn for `[start, end)`, a full-width fragment straddling
/// either range edge contributes exactly one ellipsis marker, between what
/// the fragments before and after it draw.
pub proof fn lemma_wide_straddle_rendered(frags: Seq<FragModel>, i: int, start: nat, end: nat)
    requires
        0 <= i < frags.len(),
        frags[i].width == GraphemeWidth::Full,
        frag_pos(frags, i) + 2 <= usize::MAX as nat,
        frag_pos(frags, i) < end,
        frag_pos(frags, i) + 2 > start,
        frag_pos(frags, i) < start || frag_pos(frags, i) + 2 > end,
    ensures
        render_range(frags, 0, start, end) == render_range(frags.take(i), 0, start, end) + seq![
            '\u{22EF}',
        ] + render_range(frags.skip(i + 1), sat_add(frag_pos(frags, i), 2), start, end),
{
    let pos = frag_pos(frags, i);
    lemma_render_split(frags, i, 0, start, end);
    lemma_frag_pos_from_zero(frags, i);
    lemma_wide_straddle_piece(frags[i], pos, start, end);
    assert(frags.skip(i)[0] == frags[i]);
    assert(frags.skip(i).drop_first() =~= frags.skip(i + 1));
    assert(render_range(frags.skip(i), pos, start, end) == seq!['\u{22EF}'] + render_range(
        frags.skip(i + 1),
        sat_add(pos, 2),
        start,
        end,
    ));
    assert(render_range(frags.take(i), 0, start, end) + (seq!['\u{22EF}'] + render_range(
        frags.skip(i + 1),
        sat_add(pos, 2),
        start,
        end,
    )) =~= render_range(frags.take(i), 0, start, end) + seq!['\u{22EF}'] + render_range(
        frags.skip(i + 1),
        sat_add(pos, 2),
        start,
        end,
    ));
}

/// A line of narrow, unreplaced fragments drawn over any column range that
/// contains it reproduces its text verbatim.
proof fn lemma_narrow_render(frags: Seq<FragModel>, pos: nat, start: nat, end: nat)
    requires
        forall|i: int|
            0 <= i < frags.len() ==> frags[i].width == GraphemeWidth::Half && frags[i].replacement
                is None,
        start <= pos,
        pos + frags.len() <= end,
        end <= usize::MAX as nat,
    ensures
        render_range(frags, pos, start, end) == text_of(frags),
    decreases frags.len(),
{
    if frags.len() == 0 {
    } else {
        assert(sat_add(pos, 1) == pos + 1);
        lemma_narrow_render(frags.drop_first(), pos + 1, start, end);
        assert(piece_of(frags[0], pos, start, end) == frags[0].content);
    }
}

/// Drawing the column range `[0, len)` of a line whose fragments are all
/// narrow and unreplaced reproduces the line's text exactly.
pub proof fn lemma_get_narrow_verbatim(frags: Seq<FragModel>)
    requires
        forall|i: int|
            0 <= i < frags.len() ==> frags[i].width == GraphemeWidth::Half && frags[i].replacement
                is None,
        frags.len() <= usize::MAX as nat,
    ensures
        render_range(frags, 0, 0, frags.len() as nat) == text_of(frags),
{
    lemma_narrow_render(frags, 0, 0, frags.len() as nat);
}

/// Splitting a well-formed line and appending the returned remainder onto
/// the truncated original reconstructs the pre-split fragment sequence.
pub proof fn lemma_split_append_restores(frags: Seq<FragModel>, at: int)
    requires
        line_wf(frags),
        0 <= at <= frags.len(),
    ensures
        fragments_of(text_of(frags.take(at)) + text_of(frags.skip(at))) == frags,
{
    lemma_text_of_concat(frags.take(at), frags.skip(at));
    assert(frags.take(at) + frags.skip(at) =~= frags);
}

/// Segments that are all nonempty and concatenate to the empty string form
/// the empty sequence of segments.
proof fn lemma_segments_of_empty(segs: Seq<Seq<char>>)
    requires
        segs.flatten().len() == 0,
        forall|i: int| 0 <= i < segs.len() ==> segs[i].len() > 0,
    ensures
        segs.map_values(|s: Seq<char>| frag_of(s)) == Seq::<FragModel>::empty(),
{
    if segs.len() > 0 {
        assert(segs.flatten() == segs.first() + segs.drop_first().flatten());
        assert(segs.flatten().len() >= segs[0].len());
        assert(false);
    }
    assert(segs.map_values(|s: Seq<char>| frag_of(s)) =~= Seq::<FragModel>::empty());
}

} // verus!
