//! How the input is laid out in its pane: the lines that its text takes
//! in a given width, the place of the cursor among them, and the lines
//! that are seen.

use crate::state::AppState;
use crate::text::{chars_to_string, str_chars, string_views};
use vstd::prelude::*;

verus! {

/// The text of the input on its way into lines: the lines that are full,
/// the line in progress, and the line and column of the cursor so far.
pub struct Flow {
    pub lines: Seq<Seq<char>>,
    pub line: Seq<char>,
    pub cursor_line: nat,
    pub cursor_col: nat,
}

/// The flow after the character at position `at`. A line break ends the
/// line in progress; any other character ends it first where the line
/// has reached the width, and then joins the line in progress. The cursor
/// moves with the characters before it: to the start of the next line
/// with each line that ends before it, a column to the right with each
/// character before it. A line break at the cursor takes the cursor to
/// the next line too.
pub open spec fn flow_step(f: Flow, c: char, at: nat, cursor: nat, width: nat) -> Flow {
    if c == '\n' {
        Flow {
            lines: f.lines.push(f.line),
            line: Seq::empty(),
            cursor_line: if at <= cursor {
                f.cursor_line + 1
            } else {
                f.cursor_line
            },
            cursor_col: if at <= cursor {
                0
            } else {
                f.cursor_col
            },
        }
    } else {
        let wraps = f.line.len() >= width;
        let moves = wraps && at < cursor;
        Flow {
            lines: if wraps {
                f.lines.push(f.line)
            } else {
                f.lines
            },
            line: (if wraps {
                Seq::empty()
            } else {
                f.line
            }).push(c),
            cursor_line: if moves {
                f.cursor_line + 1
            } else {
                f.cursor_line
            },
            cursor_col: (if moves {
                0
            } else {
                f.cursor_col
            }) + (if at < cursor {
                1nat
            } else {
                0nat
            }),
        }
    }
}

/// The flow after the first `n` characters of a text.
pub open spec fn flowed(s: Seq<char>, n: nat, cursor: nat, width: nat) -> Flow
    decreases n,
{
    if n == 0 || n > s.len() {
        Flow { lines: Seq::empty(), line: Seq::empty(), cursor_line: 0, cursor_col: 0 }
    } else {
        flow_step(flowed(s, (n - 1) as nat, cursor, width), s[n - 1], (n - 1) as nat, cursor, width)
    }
}

/// The lines of a text in a width, and the line and column of the cursor:
/// a line in progress that is not empty is the last line, and a cursor
/// behind the last character stands at the end of the last line.
pub open spec fn laid_out(s: Seq<char>, cursor: nat, width: nat) -> (Seq<Seq<char>>, nat, nat) {
    let f = flowed(s, s.len(), cursor, width);
    let lines = if f.line.len() > 0 {
        f.lines.push(f.line)
    } else {
        f.lines
    };
    if cursor == s.len() && lines.len() > 0 {
        (lines, (lines.len() - 1) as nat, lines.last().len())
    } else {
        (lines, f.cursor_line, f.cursor_col)
    }
}

/// The first line that is seen of `total` lines in a pane of `height`
/// lines that was scrolled to `scroll`: the scroll, but no further than
/// where the last lines fill the pane.
pub open spec fn first_seen(total: nat, height: nat, scroll: nat) -> nat {
    let most = if total >= height {
        (total - height) as nat
    } else {
        0
    };
    if scroll <= most {
        scroll
    } else {
        most
    }
}

/// The part of the lines that is seen.
pub open spec fn seen(lines: Seq<Seq<char>>, height: nat, scroll: nat) -> Seq<Seq<char>> {
    let from = first_seen(lines.len(), height, scroll);
    let to = if from + height <= lines.len() {
        from + height
    } else {
        lines.len()
    };
    lines.subrange(from as int, to as int)
}

/// What the pane of the input shows.
#[derive(Debug)]
pub struct InputLayout {
    /// The lines that are seen.
    pub lines: Vec<String>,
    /// The number of all lines.
    pub total_lines: usize,
    /// The first line that is seen.
    pub scroll: usize,
    /// The line of the cursor among the lines that are seen; the first
    /// where the cursor is above them.
    pub cursor_line: usize,
    /// The column of the cursor.
    pub cursor_col: usize,
}

impl InputLayout {
    /// Whether the layout is that of a text with its cursor in a pane of
    /// the given width and height that was scrolled to `scroll`.
    pub open spec fn shows(
        self,
        s: Seq<char>,
        cursor: nat,
        width: nat,
        height: nat,
        scroll: nat,
    ) -> bool {
        let all = laid_out(s, cursor, width);
        &&& string_views(self.lines@) == seen(all.0, height, scroll)
        &&& self.total_lines == all.0.len()
        &&& self.scroll == first_seen(all.0.len(), height, scroll)
        &&& self.cursor_line == (if all.1 >= self.scroll {
            all.1 - self.scroll
        } else {
            0
        })
        &&& self.cursor_col == all.2
    }
}

/// Views of vectors of characters.
pub open spec fn rows(v: Seq<Vec<char>>) -> Seq<Seq<char>> {
    v.map_values(|r: Vec<char>| r@)
}

/// Component for the input pane.
pub struct InputComponent;

impl InputComponent {
    fn flow(chars: &[char], cursor: usize, width: usize) -> (r: (Vec<Vec<char>>, usize, usize))
        ensures
            (rows(r.0@), r.1 as nat, r.2 as nat) == laid_out(chars@, cursor as nat, width as nat),
    {
        let mut lines: Vec<Vec<char>> = Vec::new();
        let mut line: Vec<char> = Vec::new();
        let mut cursor_line: usize = 0;
        let mut cursor_col: usize = 0;
        let mut i: usize = 0;
        assert(rows(lines@) =~= Seq::empty());
        while i < chars.len()
            invariant
                i <= chars.len(),
                cursor_line <= i,
                cursor_col <= i,
                flowed(chars@, i as nat, cursor as nat, width as nat) == (Flow {
                    lines: rows(lines@),
                    line: line@,
                    cursor_line: cursor_line as nat,
                    cursor_col: cursor_col as nat,
                }),
            decreases chars.len() - i,
        {
            let ghost done = rows(lines@);
            let ghost before = line@;
            let c = chars[i];
            if c == '\n' {
                lines.push(line);
                line = Vec::new();
                if i <= cursor {
                    cursor_line = cursor_line + 1;
                    cursor_col = 0;
                }
                assert(rows(lines@) =~= done.push(before));
                assert(line@ =~= Seq::empty());
            } else {
                if line.len() >= width {
                    lines.push(line);
                    line = Vec::new();
                    if i < cursor {
                        cursor_line = cursor_line + 1;
                        cursor_col = 0;
                    }
                    assert(rows(lines@) =~= done.push(before));
                    assert(line@ =~= Seq::empty());
                }
                line.push(c);
                if i < cursor {
                    cursor_col = cursor_col + 1;
                }
            }
            i += 1;
        }
        if line.len() > 0 {
            let ghost done = rows(lines@);
            let ghost last = line@;
            lines.push(line);
            assert(rows(lines@) =~= done.push(last));
        }
        if cursor == chars.len() && lines.len() > 0 {
            cursor_line = lines.len() - 1;
            cursor_col = lines[lines.len() - 1].len();
        }
        (lines, cursor_line, cursor_col)
    }

    /// Lays the input out in a pane: the lines of its text in the width,
    /// those of them that are seen at the scroll in the height, and the
    /// place of the cursor among them.
    pub fn layout(state: &AppState, text_width: usize, text_height: usize) -> (r: InputLayout)
        ensures
            r.shows(
                state.input@,
                state.input_cursor as nat,
                text_width as nat,
                text_height as nat,
                state.input_scroll as nat,
            ),
    {
        let chars = str_chars(state.input.as_str());
        let (all, cursor_line, cursor_col) = Self::flow(
            chars.as_slice(),
            state.input_cursor,
            text_width,
        );
        let total = all.len();
        let most = if total >= text_height {
            total - text_height
        } else {
            0
        };
        let scroll = if state.input_scroll <= most {
            state.input_scroll
        } else {
            most
        };
        let to = if text_height <= total - scroll {
            scroll + text_height
        } else {
            total
        };
        let mut lines: Vec<String> = Vec::new();
        let mut i: usize = scroll;
        assert(string_views(lines@) =~= rows(all@).subrange(scroll as int, i as int));
        while i < to
            invariant
                scroll <= i <= to <= all.len(),
                string_views(lines@) == rows(all@).subrange(scroll as int, i as int),
            decreases to - i,
        {
            let ghost done = string_views(lines@);
            lines.push(chars_to_string(all[i].as_slice()));
            assert(string_views(lines@) =~= done.push(all@[i as int]@));
            assert(rows(all@).subrange(scroll as int, i + 1) =~= rows(all@).subrange(
                scroll as int,
                i as int,
            ).push(rows(all@)[i as int]));
            i += 1;
        }
        InputLayout {
            lines,
            total_lines: total,
            scroll,
            cursor_line: if cursor_line >= scroll {
                cursor_line - scroll
            } else {
                0
            },
            cursor_col,
        }
    }
}

} // verus!
