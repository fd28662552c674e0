use vstd::prelude::*;
use vstd::string::StrSliceExecFns;

use crate::geometry::Position;
use crate::grapheme::{char_to_string, graphemes_of, push_char};
use crate::line::Line;

verus! {

/// The file identity of a buffer: the path it was loaded from, if any.
pub struct FileInfo {
    pub path: Option<String>,
}

impl Default for FileInfo {
    /// No path known yet.
    fn default() -> (r: Self)
        ensures
            r.path is None,
    {
        FileInfo { path: None }
    }
}

/// An ordered collection of text rows with a file identity and a dirty flag
/// that records mutations not yet written to disk.
pub struct Buffer {
    pub lines: Vec<Line>,
    pub file_info: FileInfo,
    pub dirty: bool,
}

/// The rows a string splits into: rows are cut at each `'\n'`, a `'\r'`
/// immediately preceding the `'\n'` is dropped with it, and a final row
/// without terminator is kept only when nonempty.
pub open spec fn lines_of(s: Seq<char>) -> Seq<Seq<char>>
    decreases s.len(),
{
    if s.len() == 0 {
        Seq::<Seq<char>>::empty()
    } else if s[0] == '\n' {
        seq![Seq::<char>::empty()] + lines_of(s.skip(1))
    } else if s[0] == '\r' && s.len() >= 2 && s[1] == '\n' {
        seq![Seq::<char>::empty()] + lines_of(s.skip(2))
    } else {
        let rest = lines_of(s.skip(1));
        if rest.len() == 0 {
            seq![seq![s[0]]]
        } else {
            seq![seq![s[0]] + rest.first()] + rest.drop_first()
        }
    }
}

/// The text written out for a sequence of rows: every row followed by a
/// newline terminator, the last row included.
pub open spec fn serialized(texts: Seq<Seq<char>>) -> Seq<char>
    decreases texts.len(),
{
    if texts.len() == 0 {
        Seq::<char>::empty()
    } else {
        texts.first() + seq!['\n'] + serialized(texts.drop_first())
    }
}

/// `p` holds no newline character.
pub open spec fn newline_free(p: Seq<char>) -> bool {
    forall|j: int| 0 <= j < p.len() ==> p[j] != '\n'
}

/// `p` with a trailing carriage return dropped.
pub open spec fn strip_cr(p: Seq<char>) -> Seq<char> {
    if p.len() > 0 && p.last() == '\r' {
        p.drop_last()
    } else {
        p
    }
}

/// A newline-free prefix forms one row: cut at the appended `'\n'` (with a
/// trailing `'\r'` of the prefix dropped), the rest of the split unchanged.
proof fn lemma_lines_of_terminated(p: Seq<char>, t: Seq<char>)
    requires
        newline_free(p),
    ensures
        lines_of(p + seq!['\n'] + t) == seq![strip_cr(p)] + lines_of(t),
    decreases p.len(),
{
    if p.len() == 0 {
        assert(p + seq!['\n'] + t =~= seq!['\n'] + t);
        assert((seq!['\n'] + t).skip(1) =~= t);
        assert(strip_cr(p) =~= p);
        assert(lines_of(seq!['\n'] + t) == seq![Seq::<char>::empty()] + lines_of(t));
        assert(strip_cr(p) =~= Seq::<char>::empty());
    } else {
        let s = p + seq!['\n'] + t;
        assert(s.len() >= 2);
        assert(s[0] == p[0]);
        assert(s[1] == if p.len() >= 2 {
            p[1]
        } else {
            '\n'
        });
        if p.len() == 1 && p[0] == '\r' {
            // the whole prefix is one carriage return: it is dropped with
            // the newline
            assert(s.skip(2) =~= t);
            assert(lines_of(s) == seq![Seq::<char>::empty()] + lines_of(t));
            assert(strip_cr(p) =~= Seq::<char>::empty());
        } else {
            // p[0] does not pair with a '\n': p[1] exists and is not '\n',
            // or p[0] itself is not '\r'
            assert(p[0] != '\n');
            assert(p[0] == '\r' ==> !(s.len() >= 2 && s[1] == '\n'));
            let p1 = p.drop_first();
            assert(s.skip(1) =~= p1 + seq!['\n'] + t);
            lemma_lines_of_terminated(p1, t);
            let rest = lines_of(p1 + seq!['\n'] + t);
            assert(rest.len() > 0);
            assert(rest.first() == strip_cr(p1));
            assert(rest.drop_first() =~= lines_of(t));
            assert(seq![s[0]] + strip_cr(p1) =~= strip_cr(p));
            assert(lines_of(s) =~= seq![strip_cr(p)] + lines_of(t));
        }
    }
}

/// A newline-free string alone is one row when nonempty, none when empty.
proof fn lemma_lines_of_unterminated(p: Seq<char>)
    requires
        newline_free(p),
    ensures
        p.len() == 0 ==> lines_of(p) == Seq::<Seq<char>>::empty(),
        p.len() > 0 ==> lines_of(p) == seq![p],
    decreases p.len(),
{
    if p.len() > 0 {
        let p1 = p.drop_first();
        assert(p.skip(1) =~= p1);
        assert(p[0] != '\n');
        assert(!(p[0] == '\r' && p.len() >= 2 && p[1] == '\n'));
        lemma_lines_of_unterminated(p1);
        if p1.len() == 0 {
            assert(seq![p[0]] =~= p);
            assert(lines_of(p) =~= seq![p]);
        } else {
            assert(seq![p[0]] + p1 =~= p);
            assert(lines_of(p) =~= seq![p]);
        }
    }
}

/// How `Buffer::insert_char` relates the buffer after (`b1`) to the buffer
/// before (`b0`): a fresh one-character row appended when `at.y` is just
/// past the last row, an in-row insertion when the row exists, and no
/// change at all when `at.y` lies beyond even that. Any mutation sets the
/// dirty flag; the file identity never changes.
pub open spec fn insert_char_transition(b0: Buffer, b1: Buffer, c: char, at: Position) -> bool {
    &&& b1.file_info == b0.file_info
    &&& (at.y > b0.height_spec() ==> b1 == b0)
    &&& (at.y == b0.height_spec() ==> {
        &&& b1.texts() == b0.texts().push(seq![c])
        &&& b1.dirty
    })
    &&& (at.y < b0.height_spec() ==> {
        &&& b1.texts() == b0.texts().update(
            at.y as int,
            b0.lines@[at.y as int].insert_text(c, at.x as int),
        )
        &&& b1.lines@[at.y as int].graphemes() == graphemes_of(b1.lines@[at.y as int].text())
        &&& b1.dirty
    })
}

/// How `Buffer::delete` relates the buffer after to the buffer before.
/// Within a row, the grapheme at `at.x` is removed. At or past the end of a
/// row that has a following row, the following row is removed and its text
/// joined onto the addressed one; when the joined text decomposes into the
/// two original rows' clusters laid end to end, the merged row's cluster
/// count is the sum of the two originals' counts. At the end of the last
/// row, and below the last row, nothing changes, the dirty flag included.
pub open spec fn delete_transition(b0: Buffer, b1: Buffer, at: Position) -> bool {
    &&& b1.file_info == b0.file_info
    &&& (at.y >= b0.height_spec() ==> b1 == b0)
    &&& ((at.y < b0.height_spec() && at.x >= b0.lines@[at.y as int].count() && at.y + 1
        < b0.height_spec()) ==> {
        &&& b1.height_spec() == b0.height_spec() - 1
        &&& b1.texts() == b0.texts().remove(at.y + 1).update(
            at.y as int,
            b0.texts()[at.y as int] + b0.texts()[at.y + 1],
        )
        &&& b1.lines@[at.y as int].graphemes() == graphemes_of(b1.lines@[at.y as int].text())
        &&& (graphemes_of(b0.texts()[at.y as int] + b0.texts()[at.y + 1]) == b0.lines@[at.y
            as int].graphemes() + b0.lines@[at.y + 1].graphemes() ==> b1.lines@[at.y
            as int].count() == b0.lines@[at.y as int].count() + b0.lines@[at.y + 1].count())
        &&& b1.dirty
    })
    &&& ((at.y < b0.height_spec() && at.x < b0.lines@[at.y as int].count()) ==> {
        &&& b1.height_spec() == b0.height_spec()
        &&& b1.texts() == b0.texts().update(
            at.y as int,
            b0.lines@[at.y as int].remove_text(at.x as int),
        )
        &&& b1.lines@[at.y as int].graphemes() == graphemes_of(b1.lines@[at.y as int].text())
        &&& b1.dirty
    })
    &&& ((at.y < b0.height_spec() && at.x >= b0.lines@[at.y as int].count() && at.y + 1
        >= b0.height_spec()) ==> b1 == b0)
}

/// How `Buffer::insert_newline` relates the buffer after to the buffer
/// before: a new empty row appended when `at.y` is just past the last row;
/// otherwise the addressed row is split at grapheme `at.x` (clamped to the
/// row's end), the head kept in place and the tail inserted right after it.
pub open spec fn insert_newline_transition(b0: Buffer, b1: Buffer, at: Position) -> bool {
    &&& b1.file_info == b0.file_info
    &&& (at.y > b0.height_spec() ==> b1 == b0)
    &&& (at.y == b0.height_spec() ==> {
        &&& b1.texts() == b0.texts().push(Seq::<char>::empty())
        &&& b1.dirty
    })
    &&& (at.y < b0.height_spec() ==> ({
        let gs = b0.lines@[at.y as int].graphemes();
        let k = if at.x <= b0.lines@[at.y as int].count() {
            at.x as int
        } else {
            b0.lines@[at.y as int].count() as int
        };
        &&& b1.texts() == b0.texts().update(at.y as int, gs.take(k).flatten()).insert(
            at.y + 1,
            gs.skip(k).flatten(),
        )
        &&& b1.dirty
    }))
}

impl Buffer {
    /// Every row is a well-formed cluster decomposition.
    pub open spec fn wf(&self) -> bool {
        forall|i: int| 0 <= i < self.lines@.len() ==> self.lines@[i].wf()
    }

    /// The textual content of each row, in order.
    pub open spec fn texts(&self) -> Seq<Seq<char>> {
        self.lines@.map_values(|l: Line| l.text())
    }

    /// Number of rows.
    pub open spec fn height_spec(&self) -> nat {
        self.lines@.len()
    }

    /// An empty buffer: no rows, no path, not dirty.
    pub fn new() -> (r: Self)
        ensures
            r.wf(),
            r.height_spec() == 0,
            r.file_info.path is None,
            !r.dirty,
    {
        Buffer { lines: Vec::new(), file_info: FileInfo::default(), dirty: false }
    }

    /// Whether the buffer holds no rows at all.
    pub fn is_empty(&self) -> (r: bool)
        ensures
            r == (self.height_spec() == 0),
    {
        self.lines.is_empty()
    }

    /// Number of rows.
    pub fn height(&self) -> (r: usize)
        ensures
            r == self.height_spec(),
    {
        self.lines.len()
    }

    /// The row count, truncated into `u16`.
    pub fn height_u16(&self) -> (r: u16)
        ensures
            r == self.height_spec() as u16,
    {
        #[verifier::truncate]
        (self.lines.len() as u16)
    }

    /// Build a buffer from a file's text: rows split at line terminators
    /// (terminator stripped), the path remembered, the dirty flag clear.
    pub fn load(contents: &str, file_name: &str) -> (r: Self)
        ensures
            r.wf(),
            r.texts() == lines_of(contents@),
            r.file_info.path matches Some(p) && p@ == file_name@,
            !r.dirty,
    {
        let n = contents.unicode_len();
        let mut lines: Vec<Line> = Vec::new();
        let mut cur = String::new();
        let mut pending_cr: bool = false;
        let mut i: usize = 0;
        proof {
            assert(contents@.skip(0) =~= contents@);
            assert(Seq::<char>::empty() + contents@ =~= contents@);
            assert(lines@.map_values(|l: Line| l.text()) =~= Seq::<Seq<char>>::empty());
            assert(Seq::<Seq<char>>::empty() + lines_of(contents@) =~= lines_of(contents@));
        }
        while i < n
            invariant
                n == contents@.len(),
                i <= n,
                forall|k: int| 0 <= k < lines@.len() ==> lines@[k].wf(),
                newline_free(cur@),
                !pending_cr ==> cur@.len() == 0 || cur@.last() != '\r',
                lines_of(contents@) == lines@.map_values(|l: Line| l.text()) + lines_of(
                    (cur@ + if pending_cr {
                        seq!['\r']
                    } else {
                        Seq::<char>::empty()
                    }) + contents@.skip(i as int),
                ),
            decreases n - i,
        {
            let ghost prefix = cur@ + if pending_cr {
                seq!['\r']
            } else {
                Seq::<char>::empty()
            };
            proof {
                assert(contents@.skip(i as int)[0] == contents@[i as int]);
                assert(contents@.skip(i as int).skip(1) =~= contents@.skip(i + 1));
            }
            let c = contents.get_char(i);
            if pending_cr && c != '\n' {
                // the carriage return did not pair with a newline: it is
                // ordinary text
                push_char(&mut cur, '\r');
                pending_cr = false;
            }
            if c == '\n' {
                let ghost emitted = cur@;
                let ghost done = lines@.map_values(|l: Line| l.text());
                proof {
                    assert(prefix + contents@.skip(i as int) =~= prefix + seq!['\n']
                        + contents@.skip(i + 1));
                    lemma_lines_of_terminated(prefix, contents@.skip(i + 1));
                    assert(strip_cr(prefix) =~= emitted);
                }
                lines.push(Line::from(cur.as_str()));
                cur = String::new();
                pending_cr = false;
                proof {
                    assert(lines@.map_values(|l: Line| l.text()) =~= done.push(emitted));
                    assert((done + seq![emitted]) + lines_of(contents@.skip(i + 1)) =~= done + (
                    seq![emitted] + lines_of(contents@.skip(i + 1))));
                    assert(done.push(emitted) =~= done + seq![emitted]);
                }
            } else if c == '\r' {
                pending_cr = true;
            } else {
                push_char(&mut cur, c);
            }
            proof {
                let prefix2 = cur@ + if pending_cr {
                    seq!['\r']
                } else {
                    Seq::<char>::empty()
                };
                if c != '\n' {
                    assert(prefix2 + contents@.skip(i + 1) =~= prefix + contents@.skip(i as int));
                } else {
                    assert(prefix2 + contents@.skip(i + 1) =~= contents@.skip(i + 1));
                }
            }
            i = i + 1;
        }
        let ghost done = lines@.map_values(|l: Line| l.text());
        let ghost p = cur@ + if pending_cr {
            seq!['\r']
        } else {
            Seq::<char>::empty()
        };
        proof {
            assert(contents@.skip(n as int) =~= Seq::<char>::empty());
            assert(p + Seq::<char>::empty() =~= p);
            assert(lines_of(contents@) == done + lines_of(p));
            assert(newline_free(p)) by {
                assert(forall|j: int| 0 <= j < cur@.len() ==> p[j] == cur@[j]);
            }
            lemma_lines_of_unterminated(p);
        }
        if pending_cr {
            push_char(&mut cur, '\r');
        }
        proof {
            assert(cur@ =~= p);
        }
        if !cur.as_str().is_empty() {
            lines.push(Line::from(cur.as_str()));
            proof {
                assert(lines@.map_values(|l: Line| l.text()) =~= done + seq![p]);
            }
        } else {
            proof {
                assert(done + Seq::<Seq<char>>::empty() =~= done);
            }
        }
        Buffer {
            lines,
            file_info: FileInfo { path: Some(String::from_str(file_name)) },
            dirty: false,
        }
    }

    /// Insert `character` at `at`: append a fresh one-character row when
    /// `at.y` is the line just past the last row (typing may continue past
    /// the last line), insert into the addressed row when it exists, and do
    /// nothing when `at.y` lies beyond even that. Any mutation sets the
    /// dirty flag.
    pub fn insert_char(&mut self, character: char, at: Position)
        requires
            old(self).wf(),
        ensures
            final(self).wf(),
            insert_char_transition(*old(self), *final(self), character, at),
    {
        if at.y > self.lines.len() {
            return ;
        }
        let ghost before = self.lines@.map_values(|l: Line| l.text());
        if at.y == self.lines.len() {
            let s = char_to_string(character);
            self.lines.push(Line::from(s.as_str()));
            self.dirty = true;
            proof {
                assert(self.lines@.map_values(|l: Line| l.text()) =~= before.push(seq![character]));
            }
        } else {
            self.lines[at.y].insert_char(character, at.x);
            self.dirty = true;
            proof {
                assert(self.lines@.map_values(|l: Line| l.text()) =~= before.update(
                    at.y as int,
                    self.lines@[at.y as int].text(),
                ));
            }
        }
    }

    /// Forward-delete at `at`. Within a row, the grapheme at `at.x` is
    /// removed. At or past the end of a row that has a following row, the
    /// following row is removed and its text joined onto the addressed one;
    /// when the joined text decomposes into the two original rows' clusters
    /// laid end to end, the merged row's cluster count is the sum of the two
    /// originals' counts. At the end of the last row, and below the last
    /// row, this is a no-op: the rows and the dirty flag are unchanged.
    pub fn delete(&mut self, at: Position)
        requires
            old(self).wf(),
        ensures
            final(self).wf(),
            delete_transition(*old(self), *final(self), at),
    {
        if at.y >= self.lines.len() {
            return ;
        }
        let ghost before = self.lines@.map_values(|l: Line| l.text());
        let count = self.lines[at.y].grapheme_count();
        if at.x >= count && at.y + 1 < self.lines.len() {
            let next_line = self.lines.remove(at.y + 1);
            proof {
                assert(self.lines@.map_values(|l: Line| l.text()) =~= before.remove(at.y + 1));
            }
            let ghost mid = self.lines@.map_values(|l: Line| l.text());
            self.lines[at.y].append(&next_line);
            self.dirty = true;
            proof {
                assert(self.lines@.map_values(|l: Line| l.text()) =~= mid.update(
                    at.y as int,
                    self.lines@[at.y as int].text(),
                ));
            }
        } else if at.x < count {
            self.lines[at.y].delete(at.x);
            self.dirty = true;
            proof {
                assert(self.lines@.map_values(|l: Line| l.text()) =~= before.update(
                    at.y as int,
                    self.lines@[at.y as int].text(),
                ));
            }
        }
    }

    /// Insert a row break at `at`: append a new empty row when `at.y` is the
    /// line just past the last row; otherwise split the addressed row at
    /// grapheme `at.x` (clamped to the row's end), keep the head in place
    /// and insert the tail as a new row immediately after it.
    pub fn insert_newline(&mut self, at: Position)
        requires
            old(self).wf(),
        ensures
            final(self).wf(),
            insert_newline_transition(*old(self), *final(self), at),
    {
        if at.y > self.lines.len() {
            return ;
        }
        let ghost before = self.lines@.map_values(|l: Line| l.text());
        if at.y == self.lines.len() {
            self.lines.push(Line::default());
            self.dirty = true;
            proof {
                assert(self.lines@.map_values(|l: Line| l.text()) =~= before.push(
                    Seq::<char>::empty(),
                ));
            }
        } else {
            let ghost gs = self.lines@[at.y as int].graphemes();
            let row_count = self.lines[at.y].grapheme_count();
            let split_at = if at.x <= row_count {
                at.x
            } else {
                row_count
            };
            let new = self.lines[at.y].split(split_at);
            let ghost mid = self.lines@.map_values(|l: Line| l.text());
            proof {
                assert(mid =~= before.update(at.y as int, self.lines@[at.y as int].text()));
                if at.x > row_count {
                    assert(gs.take(gs.len() as int) =~= gs);
                    assert(gs.skip(gs.len() as int) =~= Seq::<Seq<char>>::empty());
                    assert(self.lines@[at.y as int].text() == gs.take(gs.len() as int).flatten());
                }
            }
            self.lines.insert(at.y + 1, new);
            self.dirty = true;
            proof {
                assert(self.lines@.map_values(|l: Line| l.text()) =~= mid.insert(
                    at.y + 1,
                    new.text(),
                ));
            }
        }
    }

    /// The text written back to disk: every row followed by a newline.
    pub fn render_contents(&self) -> (r: String)
        ensures
            r@ == serialized(self.texts()),
    {
        let mut result = String::new();
        let mut i: usize = 0;
        proof {
            assert(self.texts().skip(0) =~= self.texts());
        }
        while i < self.lines.len()
            invariant
                i <= self.lines@.len(),
                serialized(self.texts()) == result@ + serialized(self.texts().skip(i as int)),
            decreases self.lines@.len() - i,
        {
            proof {
                assert(self.texts().skip(i as int).first() == self.texts()[i as int]);
                assert(self.texts().skip(i as int).drop_first() =~= self.texts().skip(i + 1));
            }
            let row = self.lines[i].to_string();
            result.append(row.as_str());
            push_char(&mut result, '\n');
            i = i + 1;
        }
        proof {
            assert(serialized(self.texts().skip(self.lines@.len() as int))
                =~= Seq::<char>::empty());
            assert(result@ + Seq::<char>::empty() =~= result@);
        }
        result
    }

    /// Record that the current contents have reached the disk.
    pub fn mark_saved(&mut self)
        ensures
            final(self).lines == old(self).lines,
            final(self).file_info == old(self).file_info,
            !final(self).dirty,
    {
        self.dirty = false;
    }

    /// Remember `file_name` as this buffer's path.
    pub fn set_path(&mut self, file_name: &str)
        ensures
            final(self).lines == old(self).lines,
            final(self).dirty == old(self).dirty,
            final(self).file_info.path matches Some(p) && p@ == file_name@,
    {
        self.file_info = FileInfo { path: Some(String::from_str(file_name)) };
    }
}

} // verus!
