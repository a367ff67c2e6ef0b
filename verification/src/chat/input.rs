//! The chat screen: the line being typed, with its cursor, and how a
//! message is shown in the history.

use vstd::prelude::*;

use crate::text::{char_is_ws, chars_of, is_ws, join_seq, string_of};

verus! {

/// The line being typed and the cursor in it (counted in characters).
#[derive(Debug, Clone)]
pub struct InputLine {
    pub text: Vec<char>,
    pub cursor: usize,
}

impl InputLine {
    /// The cursor lies within the text (or just after it).
    pub open spec fn wf(&self) -> bool {
        self.cursor <= self.text@.len()
    }

    /// An empty line.
    pub fn new() -> (r: InputLine)
        ensures
            r.wf(),
            r.text@.len() == 0,
            r.cursor == 0,
    {
        InputLine { text: Vec::new(), cursor: 0 }
    }

    /// Moves the cursor one character left, unless it is at the start.
    pub fn move_cursor_left(&mut self)
        requires
            old(self).wf(),
        ensures
            final(self).wf(),
            final(self).text@ == old(self).text@,
            final(self).cursor == if old(self).cursor > 0 {
                (old(self).cursor - 1) as usize
            } else {
                0
            },
    {
        if self.cursor > 0 {
            self.cursor = self.cursor - 1;
        }
    }

    /// Moves the cursor one character right, unless it is at the end.
    pub fn move_cursor_right(&mut self)
        requires
            old(self).wf(),
        ensures
            final(self).wf(),
            final(self).text@ == old(self).text@,
            final(self).cursor == if old(self).cursor < old(self).text@.len() {
                (old(self).cursor + 1) as usize
            } else {
                old(self).cursor
            },
    {
        if self.cursor < self.text.len() {
            self.cursor = self.cursor + 1;
        }
    }

    /// Types a character at the cursor and moves past it.
    pub fn insert_char(&mut self, c: char)
        requires
            old(self).wf(),
            old(self).text@.len() < usize::MAX,
        ensures
            final(self).wf(),
            final(self).text@ == old(self).text@.insert(old(self).cursor as int, c),
            final(self).cursor == old(self).cursor + 1,
    {
        self.text.insert(self.cursor, c);
        self.cursor = self.cursor + 1;
    }

    /// Deletes the character before the cursor (backspace).
    pub fn delete_char(&mut self)
        requires
            old(self).wf(),
        ensures
            final(self).wf(),
            old(self).cursor > 0 ==> final(self).text@ == old(self).text@.remove(
                old(self).cursor - 1,
            ) && final(self).cursor == old(self).cursor - 1,
            old(self).cursor == 0 ==> final(self).text@ == old(self).text@ && final(self).cursor
                == 0,
    {
        if self.cursor > 0 {
            self.cursor = self.cursor - 1;
            self.text.remove(self.cursor);
        }
    }

    /// Deletes the character at the cursor.
    pub fn delete_char_forward(&mut self)
        requires
            old(self).wf(),
        ensures
            final(self).wf(),
            final(self).cursor == old(self).cursor,
            old(self).cursor < old(self).text@.len() ==> final(self).text@ == old(self).text@.remove(
                old(self).cursor as int,
            ),
            old(self).cursor == old(self).text@.len() ==> final(self).text@ == old(self).text@,
    {
        if self.cursor < self.text.len() {
            self.text.remove(self.cursor);
        }
    }

    /// Takes the typed text and clears the line.
    pub fn take(&mut self) -> (s: String)
        ensures
            s@ == old(self).text@,
            final(self).text@.len() == 0,
            final(self).cursor == 0,
            final(self).wf(),
    {
        let s = string_of(&self.text);
        self.text = Vec::new();
        self.cursor = 0;
        s
    }
}

/// Typing a character and then deleting it with backspace leaves the line
/// as it was.
pub proof fn law_insert_then_backspace(text: Seq<char>, cursor: int, c: char)
    requires
        0 <= cursor <= text.len(),
    ensures
        text.insert(cursor, c).remove(cursor) == text,
{
    assert(text.insert(cursor, c).remove(cursor) =~= text);
}

/// The words of a text: its maximal runs of non-whitespace characters.
pub open spec fn words(s: Seq<char>) -> Seq<Seq<char>>
    decreases s.len(),
{
    if s.len() == 0 {
        Seq::empty()
    } else if is_ws(s.last()) {
        words(s.drop_last())
    } else if s.len() >= 2 && !is_ws(s[s.len() - 2]) {
        let w = words(s.drop_last());
        w.drop_last().push(w.last().push(s.last()))
    } else {
        words(s.drop_last()).push(seq![s.last()])
    }
}

/// The mark shown before a message of each role.
pub open spec fn role_mark(role: Seq<char>) -> Seq<char> {
    if role == "user"@ {
        "> "@
    } else if role == "assistant"@ {
        "⏺ "@
    } else if role == "system"@ {
        "! "@
    } else {
        "? "@
    }
}

proof fn lemma_words_nonempty_when_word_char(s: Seq<char>)
    requires
        s.len() >= 1,
        !is_ws(s.last()),
    ensures
        words(s).len() >= 1,
    decreases s.len(),
{
    if s.len() >= 2 && !is_ws(s[s.len() - 2]) {
        lemma_words_nonempty_when_word_char(s.drop_last());
    }
}

/// The words of a text, computed.
pub fn words_of(s: &str) -> (r: Vec<Vec<char>>)
    ensures
        crate::paths::vec_views(r@) == words(s@),
{
    let c = chars_of(s);
    let mut r: Vec<Vec<char>> = Vec::new();
    let mut i: usize = 0;
    while i < c.len()
        invariant
            0 <= i <= c@.len(),
            c@ == s@,
            crate::paths::vec_views(r@) == words(c@.take(i as int)),
        decreases c.len() - i,
    {
        let ch = c[i];
        let ghost t = c@.take(i + 1);
        proof {
            assert(t.drop_last() =~= c@.take(i as int));
            assert(t.last() == ch);
        }
        if char_is_ws(ch) {
        } else if i >= 1 && !char_is_ws(c[i - 1]) {
            proof {
                assert(t[t.len() - 2] == c@[i - 1]);
                lemma_words_nonempty_when_word_char(c@.take(i as int));
                assert(c@.take(i as int).last() == c@[i - 1]);
            }
            let mut last = r.pop().unwrap();
            last.push(ch);
            proof {
                assert(crate::paths::vec_views(r@.push(last)) =~= crate::paths::vec_views(
                    r@,
                ).push(last@));
            }
            r.push(last);
            proof {
                let w = words(c@.take(i as int));
                assert(crate::paths::vec_views(r@) =~= w.drop_last().push(w.last().push(ch)));
            }
        } else {
            let mut v: Vec<char> = Vec::new();
            v.push(ch);
            proof {
                assert(crate::paths::vec_views(r@.push(v)) =~= crate::paths::vec_views(r@).push(
                    seq![ch],
                ));
            }
            r.push(v);
        }
        i = i + 1;
    }
    proof {
        assert(c@.take(c@.len() as int) =~= c@);
    }
    r
}

/// How a message is shown in the history: its role's mark, then its words
/// separated by single spaces.
pub fn format_history_line(role: &str, content: &str) -> (r: String)
    ensures
        r@ == role_mark(role@) + join_seq(words(content@), " "@),
{
    let rs = role.to_string();
    let mut line = if crate::text::str_is(&rs, "user") {
        "> ".to_string()
    } else if crate::text::str_is(&rs, "assistant") {
        "⏺ ".to_string()
    } else if crate::text::str_is(&rs, "system") {
        "! ".to_string()
    } else {
        "? ".to_string()
    };
    let ws = words_of(content);
    let mut parts: Vec<String> = Vec::new();
    let mut i: usize = 0;
    while i < ws.len()
        invariant
            0 <= i <= ws@.len(),
            crate::text::texts(parts@) == crate::paths::vec_views(ws@).take(i as int),
        decreases ws.len() - i,
    {
        let p = string_of(&ws[i]);
        proof {
            assert(crate::text::texts(parts@.push(p)) =~= crate::text::texts(parts@).push(p@));
            assert(crate::paths::vec_views(ws@).take(i + 1) =~= crate::paths::vec_views(ws@).take(
                i as int,
            ).push(ws@[i as int]@));
        }
        parts.push(p);
        i = i + 1;
    }
    proof {
        assert(crate::paths::vec_views(ws@).take(ws@.len() as int) =~= crate::paths::vec_views(
            ws@,
        ));
    }
    let joined = crate::text::join(&parts, " ");
    line.append(joined.as_str());
    line
}

} // verus!
