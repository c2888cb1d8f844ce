//! An ordered sequence of lines plus a file identity and a modified flag;
//! owns the editing operations that can span line boundaries.

use vstd::prelude::*;
use vstd::string::StringExecFns;
use crate::fileinfo::FileInfo;
use crate::line::{fragments_of, text_of, FragModel, Line};
use crate::strutil::{chars_to_string, str_to_chars};
use crate::view::Location;

verus! {

/// The index of the first line-feed in `s`, or its length when none occurs.
pub open spec fn first_nl(s: Seq<char>) -> int
    decreases s.len(),
{
    if s.len() == 0 {
        0
    } else if s[0] == '\n' {
        0
    } else {
        1 + first_nl(s.drop_first())
    }
}

pub proof fn lemma_first_nl(s: Seq<char>)
    ensures
        0 <= first_nl(s) <= s.len(),
        first_nl(s) < s.len() ==> s[first_nl(s)] == '\n',
        forall|j: int| 0 <= j < first_nl(s) ==> s[j] != '\n',
    decreases s.len(),
{
    if s.len() == 0 {
    } else if s[0] == '\n' {
    } else {
        lemma_first_nl(s.drop_first());
        assert forall|j: int| 0 <= j < first_nl(s) implies s[j] != '\n' by {
            if j > 0 {
                assert(s.drop_first()[j - 1] == s[j]);
            }
        }
    }
}

/// The first position of `s` holding a line feed pins `first_nl` down.
pub proof fn lemma_first_nl_at(s: Seq<char>, k: int)
    requires
        0 <= k <= s.len(),
        forall|j: int| 0 <= j < k ==> s[j] != '\n',
        k < s.len() ==> s[k] == '\n',
    ensures
        first_nl(s) == k,
    decreases s.len(),
{
    if s.len() == 0 {
    } else if k == 0 {
    } else {
        assert(forall|j: int| 0 <= j < k - 1 ==> s.drop_first()[j] != '\n');
        lemma_first_nl_at(s.drop_first(), k - 1);
    }
}

/// A chunk with one trailing carriage return removed, mirroring how a line
/// terminated by a carriage return plus line feed is read.
pub open spec fn strip_cr(t: Seq<char>) -> Seq<char> {
    if t.len() > 0 && t[t.len() - 1] == '\r' {
        t.drop_last()
    } else {
        t
    }
}

/// The line texts a document's content splits into: chunks between line
/// feeds, each with a trailing carriage return removed; a trailing
/// terminator yields no spurious empty final line, and a final chunk
/// without a terminator is taken as it stands.
pub open spec fn lines_of(s: Seq<char>) -> Seq<Seq<char>>
    decreases s.len(),
{
    if s.len() == 0 {
        Seq::empty()
    } else {
        let i = first_nl(s);
        if 0 <= i < s.len() {
            seq![strip_cr(s.take(i))] + lines_of(s.skip(i + 1))
        } else {
            seq![s]
        }
    }
}

/// The serialized form of a document: every line text followed by a line
/// feed, including the last.
pub open spec fn join_lines(texts: Seq<Seq<char>>) -> Seq<char>
    decreases texts.len(),
{
    if texts.len() == 0 {
        Seq::empty()
    } else {
        texts[0] + seq!['\n'] + join_lines(texts.drop_first())
    }
}

/// The texts of a sequence of lines.
pub open spec fn texts_of(lines: Seq<Seq<FragModel>>) -> Seq<Seq<char>> {
    lines.map_values(|l: Seq<FragModel>| text_of(l))
}

/// Whether a line text is free of line feeds.
pub open spec fn no_nl(t: Seq<char>) -> bool {
    forall|i: int| 0 <= i < t.len() ==> t[i] != '\n'
}

/// Whether a line text ends with a carriage return.
pub open spec fn ends_with_cr(t: Seq<char>) -> bool {
    t.len() > 0 && t[t.len() - 1] == '\r'
}

pub proof fn lemma_join_lines_push(texts: Seq<Seq<char>>, t: Seq<char>)
    ensures
        join_lines(texts.push(t)) == join_lines(texts) + t + seq!['\n'],
    decreases texts.len(),
{
    if texts.len() == 0 {
        assert(texts.push(t).drop_first() =~= Seq::<Seq<char>>::empty());
        assert(join_lines(Seq::<Seq<char>>::empty()) =~= Seq::<char>::empty());
        assert(join_lines(texts.push(t)) =~= join_lines(texts) + t + seq!['\n']);
    } else {
        lemma_join_lines_push(texts.drop_first(), t);
        assert(texts.push(t).drop_first() =~= texts.drop_first().push(t));
        assert(join_lines(texts.push(t)) =~= join_lines(texts) + t + seq!['\n']);
    }
}

/// Serializing line texts, each followed by a line feed, and splitting the
/// result on line terminators yields the same texts back, provided no text
/// holds a line feed or ends with a carriage return.
pub proof fn lemma_serialize_roundtrip(texts: Seq<Seq<char>>)
    requires
        forall|k: int| 0 <= k < texts.len() ==> no_nl(#[trigger] texts[k]),
        forall|k: int| 0 <= k < texts.len() ==> !ends_with_cr(#[trigger] texts[k]),
    ensures
        lines_of(join_lines(texts)) == texts,
    decreases texts.len(),
{
    if texts.len() == 0 {
        assert(lines_of(join_lines(texts)) =~= texts);
    } else {
        let t0 = texts[0];
        let j = join_lines(texts);
        assert(j == t0 + seq!['\n'] + join_lines(texts.drop_first()));
        assert(forall|m: int| 0 <= m < t0.len() ==> j[m] == t0[m] && j[m] != '\n');
        assert(j[t0.len() as int] == '\n');
        lemma_first_nl_at(j, t0.len() as int);
        assert(j.take(t0.len() as int) =~= t0);
        assert(strip_cr(t0) == t0);
        assert(j.skip(t0.len() as int + 1) =~= join_lines(texts.drop_first()));
        lemma_serialize_roundtrip(texts.drop_first());
        assert(lines_of(j) =~= texts);
    }
}

/// Every line text a document splits into is free of line feeds.
pub proof fn lemma_lines_of_no_nl(s: Seq<char>)
    ensures
        forall|k: int| 0 <= k < lines_of(s).len() ==> no_nl(#[trigger] lines_of(s)[k]),
    decreases s.len(),
{
    if s.len() == 0 {
    } else {
        lemma_first_nl(s);
        let i = first_nl(s);
        if i < s.len() {
            assert(forall|m: int| 0 <= m < s.take(i).len() ==> s.take(i)[m] != '\n');
            assert(no_nl(s.take(i)));
            assert(no_nl(strip_cr(s.take(i))));
            lemma_lines_of_no_nl(s.skip(i + 1));
            assert(forall|k: int|
                1 <= k < lines_of(s).len() ==> lines_of(s)[k] == lines_of(s.skip(i + 1))[k - 1]);
        } else {
            assert(no_nl(s));
        }
    }
}

/// Loading a document, serializing it unchanged, and splitting the result
/// again yields the same line texts, provided no loaded line ends with a
/// carriage return.
pub proof fn lemma_load_save_reload(content: Seq<char>)
    requires
        forall|k: int|
            0 <= k < lines_of(content).len() ==> !ends_with_cr(#[trigger] lines_of(content)[k]),
    ensures
        lines_of(join_lines(lines_of(content))) == lines_of(content),
{
    lemma_lines_of_no_nl(content);
    lemma_serialize_roundtrip(lines_of(content));
}

/// The lines after inserting one character at line `li`, cluster `g`:
/// unchanged past the virtual end line, a new one-character line on it,
/// otherwise the character inserted into that line's text.
pub open spec fn lines_after_insert_char(
    lines: Seq<Seq<FragModel>>,
    c: char,
    li: int,
    g: int,
) -> Seq<Seq<FragModel>> {
    if li > lines.len() {
        lines
    } else if li == lines.len() {
        lines.push(fragments_of(seq![c]))
    } else {
        lines.update(li, fragments_of(Line::text_with_insert(lines[li], c, g)))
    }
}

/// The lines after deleting at line `li`, cluster `g`: unchanged at the
/// document start or out of range; a join with the following line when at
/// or past the line's end; otherwise one cluster removed.
pub open spec fn lines_after_delete(lines: Seq<Seq<FragModel>>, li: int, g: int) -> Seq<
    Seq<FragModel>,
> {
    if li == 0 && g == 0 {
        lines
    } else if 0 <= li < lines.len() {
        let cur = lines[li];
        if g >= cur.len() && lines.len() > li + 1 {
            lines.update(li, fragments_of(text_of(cur) + text_of(lines[li + 1]))).remove(li + 1)
        } else if g < cur.len() {
            lines.update(li, fragments_of(Line::text_without(cur, g)))
        } else {
            lines
        }
    } else {
        lines
    }
}

/// Whether deleting at line `li`, cluster `g` mutates the document.
pub open spec fn delete_modifies(lines: Seq<Seq<FragModel>>, li: int, g: int) -> bool {
    &&& !(li == 0 && g == 0)
    &&& 0 <= li < lines.len()
    &&& (g < lines[li].len() || lines.len() > li + 1)
}

/// The lines after inserting a line break at line `li`, cluster `g`: a new
/// empty line on the virtual end line; within the document the line split
/// at `g` with the remainder inserted after it; unchanged past the end.
pub open spec fn lines_after_insert_new_line(lines: Seq<Seq<FragModel>>, li: int, g: int) -> Seq<
    Seq<FragModel>,
> {
    if li == lines.len() {
        lines.push(Seq::<FragModel>::empty())
    } else if 0 <= li < lines.len() {
        let m = if g < lines[li].len() {
            g
        } else {
            lines[li].len() as int
        };
        lines.update(li, lines[li].take(m)).insert(li + 1, lines[li].skip(m))
    } else {
        lines
    }
}

/// The document: all lines, the file identity, and the modified flag.
#[derive(Debug)]
pub struct Buffer {
    pub lines: Vec<Line>,
    pub file_info: FileInfo,
    pub is_modify: bool,
}

impl Default for Buffer {
    /// An empty, unbound, unmodified buffer.
    fn default() -> (b: Buffer)
        ensures
            b.lines.deep_view() == Seq::<Seq<FragModel>>::empty(),
            b.file_info.path is None,
            !b.is_modify,
    {
        let b = Buffer { lines: Vec::new(), file_info: FileInfo { path: None }, is_modify: false };
        proof {
            assert(b.lines.deep_view() =~= Seq::<Seq<FragModel>>::empty());
        }
        b
    }
}

/// Scans for the next line feed at or after `from`.
fn find_nl(chars: &Vec<char>, from: usize) -> (j: usize)
    requires
        from <= chars@.len(),
    ensures
        from <= j <= chars@.len(),
        forall|m: int| from <= m < j ==> chars@[m] != '\n',
        j < chars@.len() ==> chars@[j as int] == '\n',
{
    let mut j = from;
    while j < chars.len() && chars[j] != '\n'
        invariant
            from <= j <= chars@.len(),
            forall|m: int| from <= m < j ==> chars@[m] != '\n',
        decreases chars@.len() - j,
    {
        j += 1;
    }
    j
}

impl Buffer {
    /// The number of lines.
    pub fn height(&self) -> (h: usize)
        ensures
            h == self.lines.deep_view().len(),
    {
        self.lines.len()
    }

    /// Whether the buffer holds no lines at all.
    pub fn is_empty(&self) -> (r: bool)
        ensures
            r == (self.lines.deep_view().len() == 0),
    {
        self.lines.is_empty()
    }

    /// Whether a file identity is bound.
    pub fn is_file_loaded(&self) -> (r: bool)
        ensures
            r == (self.file_info.path is Some),
    {
        self.file_info.has_path()
    }

    /// Builds a buffer from a document's content: one line per text chunk
    /// between line terminators, bound to `filename`, not modified.
    pub fn from_text(filename: &str, content: &str) -> (b: Buffer)
        ensures
            b.lines.deep_view() == lines_of(content@).map_values(
                |t: Seq<char>| fragments_of(t),
            ),
            texts_of(b.lines.deep_view()) == lines_of(content@),
            b.file_info.path is Some && b.file_info.path->0@ == filename@,
            !b.is_modify,
    {
        let chars = str_to_chars(content);
        let mut lines: Vec<Line> = Vec::new();
        let mut idx: usize = 0;
        let ghost whole = content@;
        proof {
            assert(whole.skip(0) =~= whole);
            assert(Seq::<Seq<char>>::empty() + lines_of(whole) =~= lines_of(whole));
            assert(lines.deep_view() =~= Seq::<Seq<FragModel>>::empty());
        }
        let ghost mut done: Seq<Seq<char>> = Seq::empty();
        while idx < chars.len()
            invariant
                idx <= chars@.len(),
                chars@ == whole,
                lines_of(whole) == done + lines_of(whole.skip(idx as int)),
                lines.deep_view().len() == done.len(),
                forall|k: int|
                    0 <= k < done.len() ==> lines.deep_view()[k] == fragments_of(#[trigger] done[k]),
                forall|k: int|
                    0 <= k < done.len() ==> text_of(lines.deep_view()[k]) == #[trigger] done[k],
            decreases chars@.len() - idx,
        {
            let ghost rem = whole.skip(idx as int);
            let j = find_nl(&chars, idx);
            proof {
                assert(forall|m: int| 0 <= m < j - idx ==> rem[m] == whole[idx + m]);
                lemma_first_nl_at(rem, j - idx);
            }
            let mut chunk: Vec<char> = Vec::new();
            let upto = if j < chars.len() && j > idx && chars[j - 1] == '\r' {
                j - 1
            } else {
                j
            };
            proof {
                assert(chunk@ =~= whole.subrange(idx as int, idx as int));
            }
            for m in idx..upto
                invariant
                    idx <= upto <= chars@.len(),
                    chars@ == whole,
                    chunk@ == whole.subrange(idx as int, m as int),
            {
                chunk.push(chars[m]);
                assert(chunk@ =~= whole.subrange(idx as int, m + 1));
            }
            let chunk_str = chars_to_string(&chunk);
            let line = Line::from(chunk_str.as_str());
            let ghost prev_lines = lines.deep_view();
            lines.push(line);
            proof {
                assert(lines.deep_view() =~= prev_lines.push(line@));
                let i = first_nl(rem);
                assert(i == j - idx);
                if j < chars@.len() {
                    // terminated chunk: the spec strips one carriage return
                    assert(rem.take(i) =~= whole.subrange(idx as int, j as int));
                    if j > idx && whole[j - 1] == '\r' {
                        assert(strip_cr(rem.take(i)) =~= whole.subrange(idx as int, j - 1));
                    } else {
                        assert(strip_cr(rem.take(i)) =~= whole.subrange(idx as int, j as int));
                    }
                    assert(chunk@ == strip_cr(rem.take(i)));
                    assert(lines_of(rem) == seq![strip_cr(rem.take(i))] + lines_of(
                        rem.skip(i + 1),
                    ));
                    assert(rem.skip(i + 1) =~= whole.skip(j + 1));
                    assert(done + lines_of(rem) =~= done.push(chunk@) + lines_of(
                        whole.skip(j + 1),
                    ));
                } else {
                    // final chunk without a terminator
                    assert(i == rem.len());
                    assert(rem.len() > 0);
                    assert(lines_of(rem) == seq![rem]);
                    assert(rem =~= whole.subrange(idx as int, j as int));
                    assert(chunk@ == rem);
                    assert(whole.skip(j as int).len() == 0);
                    assert(lines_of(whole.skip(j as int)) =~= Seq::<Seq<char>>::empty());
                    assert(done + lines_of(rem) =~= done.push(chunk@) + lines_of(
                        whole.skip(j as int),
                    ));
                }
            }
            proof {
                done = done.push(chunk@);
            }
            idx = if j < chars.len() {
                j + 1
            } else {
                j
            };
        }
        proof {
            assert(whole.skip(idx as int).len() == 0);
            assert(lines_of(whole.skip(idx as int)) =~= Seq::<Seq<char>>::empty());
            assert(done + lines_of(whole.skip(idx as int)) =~= done);
            assert(lines.deep_view() =~= lines_of(whole).map_values(
                |t: Seq<char>| fragments_of(t),
            ));
            assert(texts_of(lines.deep_view()) =~= lines_of(whole));
        }
        Buffer { lines, file_info: FileInfo::from(filename), is_modify: false }
    }

    /// Inserts one character at `at`: past the virtual end line nothing
    /// happens; on the virtual end line a new one-character line is
    /// appended; otherwise the character is inserted into that line before
    /// the cluster at the grapheme index. Any mutation sets the modified
    /// flag.
    pub fn insert_char(&mut self, s: char, at: Location)
        ensures
            final(self).lines.deep_view() == lines_after_insert_char(
                old(self).lines.deep_view(),
                s,
                at.line_index as int,
                at.grapheme_index as int,
            ),
            final(self).is_modify == (old(self).is_modify || at.line_index <= old(
                self,
            ).lines.deep_view().len()),
            final(self).file_info == old(self).file_info,
            at.line_index > old(self).lines.deep_view().len() ==> *final(self) == *old(self),
    {
        let height = self.lines.len();
        if at.line_index > height {
            return ;
        }
        if at.line_index == height {
            let mut t = String::new();
            t.push(s);
            let ghost prev = self.lines.deep_view();
            proof {
                assert(t@ =~= seq![s]);
            }
            self.lines.push(Line::from(t.as_str()));
            self.is_modify = true;
            proof {
                assert(self.lines.deep_view() =~= prev.push(fragments_of(seq![s])));
            }
        } else {
            let ghost prev = self.lines.deep_view();
            let mut line = self.lines.remove(at.line_index);
            line.intert_char(s, at.grapheme_index);
            self.lines.insert(at.line_index, line);
            self.is_modify = true;
            proof {
                assert(self.lines.deep_view() =~= prev.update(
                    at.line_index as int,
                    fragments_of(
                        Line::text_with_insert(
                            prev[at.line_index as int],
                            s,
                            at.grapheme_index as int,
                        ),
                    ),
                ));
            }
        }
    }

    /// Deletes at `at`: at the very start of the document, or past the last
    /// line, nothing happens. At or past a line's end with a following line
    /// present, the following line is removed and its content appended to
    /// the current line (a join); within a line, the cluster at the
    /// grapheme index is deleted. Only an actual mutation sets the modified
    /// flag.
    pub fn delete(&mut self, at: Location)
        ensures
            final(self).lines.deep_view() == lines_after_delete(
                old(self).lines.deep_view(),
                at.line_index as int,
                at.grapheme_index as int,
            ),
            final(self).is_modify == (old(self).is_modify || delete_modifies(
                old(self).lines.deep_view(),
                at.line_index as int,
                at.grapheme_index as int,
            )),
            final(self).file_info == old(self).file_info,
            at.line_index == 0 && at.grapheme_index == 0 ==> *final(self) == *old(self),
    {
        if at.line_index == 0 && at.grapheme_index == 0 {
            return ;
        }
        if at.line_index >= self.lines.len() {
            return ;
        }
        let line_len = self.lines[at.line_index].len();
        let ghost prev = self.lines.deep_view();
        if at.grapheme_index >= line_len && self.lines.len() > at.line_index + 1 {
            let next_line = self.lines.remove(at.line_index + 1);
            let mut cur = self.lines.remove(at.line_index);
            cur.append(&next_line);
            self.lines.insert(at.line_index, cur);
            self.is_modify = true;
            proof {
                let li = at.line_index as int;
                assert(self.lines.deep_view() =~= prev.update(
                    li,
                    fragments_of(text_of(prev[li]) + text_of(prev[li + 1])),
                ).remove(li + 1));
            }
        } else if at.grapheme_index < line_len {
            let mut cur = self.lines.remove(at.line_index);
            cur.delete(at.grapheme_index);
            self.lines.insert(at.line_index, cur);
            self.is_modify = true;
            proof {
                let li = at.line_index as int;
                assert(self.lines.deep_view() =~= prev.update(
                    li,
                    fragments_of(Line::text_without(prev[li], at.grapheme_index as int)),
                ));
            }
        }
    }

    /// Inserts a line break at `at`: on the virtual end line a new empty
    /// line is appended; within the document the line is split at the
    /// grapheme index and the remainder inserted immediately after; past
    /// the virtual end nothing happens.
    pub fn insert_new_line(&mut self, at: Location)
        ensures
            final(self).lines.deep_view() == lines_after_insert_new_line(
                old(self).lines.deep_view(),
                at.line_index as int,
                at.grapheme_index as int,
            ),
            final(self).is_modify == (old(self).is_modify || at.line_index <= old(
                self,
            ).lines.deep_view().len()),
            final(self).file_info == old(self).file_info,
            at.line_index > old(self).lines.deep_view().len() ==> *final(self) == *old(self),
    {
        let height = self.lines.len();
        if at.line_index == height {
            let ghost prev = self.lines.deep_view();
            self.lines.push(Line::default());
            self.is_modify = true;
            proof {
                assert(self.lines.deep_view() =~= prev.push(Seq::<FragModel>::empty()));
            }
        } else if at.line_index < height {
            let ghost prev = self.lines.deep_view();
            let mut line = self.lines.remove(at.line_index);
            let rest = line.split(at.grapheme_index);
            self.lines.insert(at.line_index, rest);
            self.lines.insert(at.line_index, line);
            self.is_modify = true;
            proof {
                let li = at.line_index as int;
                let m = if (at.grapheme_index as int) < prev[li].len() {
                    at.grapheme_index as int
                } else {
                    prev[li].len() as int
                };
                if at.grapheme_index as int >= prev[li].len() {
                    assert(prev[li].take(m) =~= prev[li]);
                    assert(prev[li].skip(m) =~= Seq::<FragModel>::empty());
                }
                assert(self.lines.deep_view() =~= prev.update(li, prev[li].take(m)).insert(
                    li + 1,
                    prev[li].skip(m),
                ));
            }
        }
    }

    /// Records the outcome of writing the serialized document to the bound
    /// path: a successful write clears the modified flag; a failed one
    /// leaves the buffer as it was.
    pub fn save(&mut self, wrote: bool)
        ensures
            final(self).lines.deep_view() == old(self).lines.deep_view(),
            final(self).file_info == old(self).file_info,
            final(self).is_modify == (old(self).is_modify && !wrote),
    {
        if wrote {
            self.is_modify = false;
        }
    }

    /// Records the outcome of writing the serialized document to `filename`:
    /// a successful write rebinds the file identity to it and clears the
    /// modified flag; a failed one leaves the buffer as it was.
    pub fn save_as(&mut self, filename: &str, wrote: bool)
        ensures
            final(self).lines.deep_view() == old(self).lines.deep_view(),
            wrote ==> final(self).file_info.path is Some && final(self).file_info.path->0@
                == filename@ && !final(self).is_modify,
            !wrote ==> final(self).file_info == old(self).file_info && final(self).is_modify == old(self).is_modify,
    {
        if wrote {
            self.file_info = FileInfo::from(filename);
            self.is_modify = false;
        }
    }

    /// The serialized document: every line's text followed by a line feed.
    pub fn to_text(&self) -> (s: String)
        ensures
            s@ == join_lines(texts_of(self.lines.deep_view())),
    {
        let mut s = String::new();
        let n = self.lines.len();
        proof {
            assert(texts_of(self.lines.deep_view()).take(0) =~= Seq::<Seq<char>>::empty());
            assert(join_lines(Seq::<Seq<char>>::empty()) =~= Seq::<char>::empty());
        }
        for i in 0..n
            invariant
                n == self.lines@.len(),
                s@ == join_lines(texts_of(self.lines.deep_view()).take(i as int)),
        {
            let line_str = self.lines[i].to_string();
            s.append(line_str.as_str());
            s.push('\n');
            proof {
                let texts = texts_of(self.lines.deep_view());
                assert(texts.take(i + 1) =~= texts.take(i as int).push(texts[i as int]));
                lemma_join_lines_push(texts.take(i as int), texts[i as int]);
                assert(s@ =~= join_lines(texts.take(i as int)) + texts[i as int] + seq!['\n']);
            }
        }
        proof {
            assert(texts_of(self.lines.deep_view()).take(n as int) =~= texts_of(
                self.lines.deep_view(),
            ));
        }
        s
    }
}

} // verus!
