//! Text that the supervisor writes and reads: decimal numbers for command
//! lines, and the lines of a helper's output.

use vstd::prelude::*;

verus! {

/// The decimal digit for a number below ten.
pub open spec fn digit(d: nat) -> char {
    if d == 0 {
        '0'
    } else if d == 1 {
        '1'
    } else if d == 2 {
        '2'
    } else if d == 3 {
        '3'
    } else if d == 4 {
        '4'
    } else if d == 5 {
        '5'
    } else if d == 6 {
        '6'
    } else if d == 7 {
        '7'
    } else if d == 8 {
        '8'
    } else {
        '9'
    }
}

/// The decimal notation of a number, without sign or leading zeros.
pub open spec fn decimal(n: nat) -> Seq<char>
    decreases n,
{
    if n < 10 {
        seq![digit(n)]
    } else {
        decimal(n / 10).push(digit(n % 10))
    }
}

fn digit_text(d: u16) -> (text: &'static str)
    requires
        d < 10,
    ensures
        text@ == seq![digit(d as nat)],
{
    proof {
        reveal_strlit("0");
        reveal_strlit("1");
        reveal_strlit("2");
        reveal_strlit("3");
        reveal_strlit("4");
        reveal_strlit("5");
        reveal_strlit("6");
        reveal_strlit("7");
        reveal_strlit("8");
        reveal_strlit("9");
    }
    let text = if d == 0 {
        "0"
    } else if d == 1 {
        "1"
    } else if d == 2 {
        "2"
    } else if d == 3 {
        "3"
    } else if d == 4 {
        "4"
    } else if d == 5 {
        "5"
    } else if d == 6 {
        "6"
    } else if d == 7 {
        "7"
    } else if d == 8 {
        "8"
    } else {
        "9"
    };
    assert(text@ =~= seq![digit(d as nat)]);
    text
}

/// Writes a number in decimal notation.
pub fn render_decimal(n: u16) -> (text: String)
    ensures
        text@ == decimal(n as nat),
    decreases n,
{
    if n < 10 {
        digit_text(n).to_owned()
    } else {
        let mut text = render_decimal(n / 10);
        let last = digit_text(n % 10);
        text.append(last);
        assert(text@ =~= decimal((n / 10) as nat).push(digit((n % 10) as nat)));
        text
    }
}

/// The position of the first line feed in `text`, or the length of `text`
/// where it holds none.
pub open spec fn first_line_feed(text: Seq<char>) -> int
    decreases text.len(),
{
    if text.len() == 0 || text[0] == '\n' {
        0
    } else {
        1 + first_line_feed(text.skip(1))
    }
}

/// A line without the carriage return that stood before its line feed.
pub open spec fn without_carriage_return(line: Seq<char>) -> Seq<char> {
    if line.len() > 0 && line.last() == '\r' {
        line.drop_last()
    } else {
        line
    }
}

/// The lines of a text. A line ends with a line feed, or with a carriage
/// return followed by a line feed, or with the text; the ending is no part of
/// the line. Nothing follows the last ending: a text that ends with a line
/// feed has no empty line after it.
pub open spec fn lines(text: Seq<char>) -> Seq<Seq<char>>
    decreases text.len(),
{
    let end = first_line_feed(text);
    if text.len() == 0 {
        Seq::empty()
    } else if 0 <= end < text.len() {
        seq![without_carriage_return(text.take(end))] + lines(text.skip(end + 1))
    } else {
        seq![text]
    }
}

/// The last entry of `lines` that is not empty.
pub open spec fn last_nonempty(lines: Seq<Seq<char>>) -> Option<Seq<char>>
    decreases lines.len(),
{
    if lines.len() == 0 {
        None
    } else if lines.last().len() > 0 {
        Some(lines.last())
    } else {
        last_nonempty(lines.drop_last())
    }
}

/// The last line of `text` that is not empty, if there is one.
pub open spec fn last_nonempty_line(text: Seq<char>) -> Option<Seq<char>> {
    last_nonempty(lines(text))
}

/// The first line feed of a text stands where no line feed stands before.
pub proof fn lemma_first_line_feed(text: Seq<char>, end: int)
    requires
        0 <= end <= text.len(),
        forall|i: int| 0 <= i < end ==> text[i] != '\n',
        end < text.len() ==> text[end] == '\n',
    ensures
        first_line_feed(text) == end,
    decreases end,
{
    if end > 0 {
        let rest = text.skip(1);
        assert forall|i: int| 0 <= i < end - 1 implies rest[i] != '\n' by {
            assert(rest[i] == text[i + 1]);
        }
        lemma_first_line_feed(rest, end - 1);
    }
}

/// Of a line followed by further lines, the last that is not empty is the
/// last such among the further lines, or else the line itself.
pub proof fn lemma_last_nonempty_after(line: Seq<char>, rest: Seq<Seq<char>>)
    ensures
        last_nonempty(seq![line] + rest) == match last_nonempty(rest) {
            Some(found) => Some(found),
            None => if line.len() > 0 {
                Some(line)
            } else {
                None
            },
        },
    decreases rest.len(),
{
    let all = seq![line] + rest;
    if rest.len() == 0 {
        assert(all.last() == line);
        assert(all.drop_last() =~= Seq::<Seq<char>>::empty());
        assert(last_nonempty(all.drop_last()) is None);
    } else {
        assert(all.last() == rest.last());
        assert(all.drop_last() =~= seq![line] + rest.drop_last());
        lemma_last_nonempty_after(line, rest.drop_last());
    }
}

/// The first line feed of a text lies within the text or at its end, no
/// line feed stands before it, and where it lies within the text a line
/// feed stands there.
pub proof fn lemma_first_line_feed_is_first(text: Seq<char>)
    ensures
        0 <= first_line_feed(text) <= text.len(),
        forall|i: int| 0 <= i < first_line_feed(text) ==> text[i] != '\n',
        first_line_feed(text) < text.len() ==> text[first_line_feed(text)] == '\n',
    decreases text.len(),
{
    if text.len() > 0 && text[0] != '\n' {
        let rest = text.skip(1);
        lemma_first_line_feed_is_first(rest);
        assert forall|i: int| 0 <= i < first_line_feed(text) implies text[i] != '\n' by {
            if i > 0 {
                assert(text[i] == rest[i - 1]);
            }
        }
        if first_line_feed(text) < text.len() {
            assert(text[first_line_feed(text)] == rest[first_line_feed(rest)]);
        }
    }
}

/// No line of a text holds a line feed.
pub proof fn lemma_lines_hold_no_line_feed(text: Seq<char>)
    ensures
        forall|i: int, j: int|
            0 <= i < lines(text).len() && 0 <= j < lines(text)[i].len() ==> lines(text)[i][j]
                != '\n',
    decreases text.len(),
{
    let end = first_line_feed(text);
    lemma_first_line_feed_is_first(text);
    if text.len() == 0 {
    } else if end < text.len() {
        let first = without_carriage_return(text.take(end));
        let rest = lines(text.skip(end + 1));
        lemma_lines_hold_no_line_feed(text.skip(end + 1));
        assert forall|i: int, j: int|
            0 <= i < lines(text).len() && 0 <= j < lines(text)[i].len() implies lines(text)[i][j]
            != '\n' by {
            if i == 0 {
                assert(lines(text)[0] == first);
                assert(first[j] == text[j]);
            } else {
                assert(lines(text)[i] == rest[i - 1]);
            }
        }
    } else {
        assert(lines(text) =~= seq![text]);
    }
}

/// The last entry that is not empty is an entry, and not empty.
pub proof fn lemma_last_nonempty_is_an_entry(lines: Seq<Seq<char>>)
    ensures
        match last_nonempty(lines) {
            Some(found) => found.len() > 0 && exists|i: int|
                0 <= i < lines.len() && lines[i] == found,
            None => forall|i: int| 0 <= i < lines.len() ==> lines[i].len() == 0,
        },
    decreases lines.len(),
{
    if lines.len() > 0 {
        if lines.last().len() > 0 {
            assert(lines[lines.len() - 1] == lines.last());
        } else {
            let front = lines.drop_last();
            lemma_last_nonempty_is_an_entry(front);
            match last_nonempty(front) {
                Some(found) => {
                    let i = choose|i: int| 0 <= i < front.len() && front[i] == found;
                    assert(lines[i] == found);
                },
                None => {
                    assert forall|i: int| 0 <= i < lines.len() implies lines[i].len() == 0 by {
                        if i < front.len() {
                            assert(lines[i] == front[i]);
                        }
                    }
                },
            }
        }
    }
}

/// The last line of a text that is not empty holds at least one character
/// and no line feed. A text has no such line exactly when all its lines are
/// empty.
pub proof fn lemma_last_nonempty_line_is_a_line(text: Seq<char>)
    ensures
        match last_nonempty_line(text) {
            Some(line) => line.len() > 0 && forall|j: int| 0 <= j < line.len() ==> line[j] != '\n',
            None => forall|i: int| 0 <= i < lines(text).len() ==> lines(text)[i].len() == 0,
        },
{
    lemma_lines_hold_no_line_feed(text);
    lemma_last_nonempty_is_an_entry(lines(text));
}

/// The characters of a text, one by one.
pub fn characters(text: &str) -> (chars: Vec<char>)
    ensures
        chars@ == text@,
{
    let mut chars: Vec<char> = Vec::new();
    for c in it: text.chars()
        invariant
            it.seq() == text@,
            chars@ == text@.take(it.index() as int),
    {
        chars.push(c);
        assert(chars@ =~= text@.take(it.index() + 1));
    }
    assert(chars@ =~= text@);
    chars
}

/// Finds the last line of `text` that is not empty.
pub fn find_last_nonempty_line(text: &str) -> (line: Option<&str>)
    ensures
        match line {
            Some(found) => last_nonempty_line(text@) == Some(found@),
            None => last_nonempty_line(text@) is None,
        },
{
    let chars = characters(text);
    let n: usize = chars.len();
    let mut pos: usize = 0;
    let mut best: Option<(usize, usize)> = None;
    assert(text@.skip(0) =~= text@);
    while pos < n
        invariant
            chars@ == text@,
            n == chars.len(),
            pos <= n,
            best matches Some((from, to)) ==> from < to <= n,
            last_nonempty_line(text@) == match last_nonempty(lines(text@.skip(pos as int))) {
                Some(found) => Some(found),
                None => match best {
                    Some((from, to)) => Some(text@.subrange(from as int, to as int)),
                    None => None,
                },
            },
        decreases n - pos,
    {
        let mut end: usize = pos;
        while end < n && chars[end] != '\n'
            invariant
                pos <= end <= n,
                n == chars.len(),
                forall|i: int| pos <= i < end ==> chars@[i] != '\n',
            decreases n - end,
        {
            end += 1;
        }
        let ghost rest = text@.skip(pos as int);
        proof {
            assert forall|i: int| 0 <= i < end - pos implies rest[i] != '\n' by {
                assert(rest[i] == chars@[pos + i]);
            }
            lemma_first_line_feed(rest, end - pos);
        }
        if end == n {
            proof {
                assert(lines(rest) == seq![rest]);
                assert(seq![rest] + Seq::<Seq<char>>::empty() =~= seq![rest]);
                lemma_last_nonempty_after(rest, Seq::empty());
                assert(text@.subrange(pos as int, n as int) =~= rest);
                assert(text@.skip(n as int) =~= Seq::<char>::empty());
            }
            best = Some((pos, n));
            pos = n;
        } else {
            let stop: usize = if end > pos && chars[end - 1] == '\r' {
                end - 1
            } else {
                end
            };
            proof {
                let line = without_carriage_return(rest.take(end - pos));
                assert(rest.take(end - pos) =~= text@.subrange(pos as int, end as int));
                assert(line =~= text@.subrange(pos as int, stop as int));
                assert(rest.skip(end - pos + 1) =~= text@.skip(end + 1));
                lemma_last_nonempty_after(line, lines(text@.skip(end + 1)));
            }
            if stop > pos {
                best = Some((pos, stop));
            }
            pos = end + 1;
        }
    }
    assert(text@.skip(n as int) =~= Seq::<char>::empty());
    match best {
        Some((from, to)) => Some(text.substring_char(from, to)),
        None => None,
    }
}

/// The texts that a sequence of strings holds.
pub open spec fn texts(strings: Seq<String>) -> Seq<Seq<char>> {
    Seq::new(strings.len(), |i: int| strings[i]@)
}

/// The parts in their order, with the separator between each two.
pub open spec fn joined(parts: Seq<Seq<char>>, separator: Seq<char>) -> Seq<char>
    decreases parts.len(),
{
    if parts.len() == 0 {
        Seq::empty()
    } else if parts.len() == 1 {
        parts[0]
    } else {
        joined(parts.drop_last(), separator) + separator + parts.last()
    }
}

/// Writes the parts in their order, with the separator between each two.
pub fn join(parts: &Vec<String>, separator: &str) -> (text: String)
    ensures
        text@ == joined(texts(parts@), separator@),
{
    let mut text = String::new();
    let mut i: usize = 0;
    assert(texts(parts@).take(0) =~= Seq::<Seq<char>>::empty());
    while i < parts.len()
        invariant
            i <= parts.len(),
            text@ == joined(texts(parts@).take(i as int), separator@),
        decreases parts.len() - i,
    {
        let ghost before = texts(parts@).take(i as int);
        let ghost after = texts(parts@).take(i + 1);
        assert(after.drop_last() =~= before);
        assert(after.last() == parts@[i as int]@);
        if i > 0 {
            text.append(separator);
        }
        text.append(parts[i].as_str());
        assert(text@ =~= joined(after, separator@));
        i += 1;
    }
    assert(texts(parts@).take(parts.len() as int) =~= texts(parts@));
    text
}

} // verus!
