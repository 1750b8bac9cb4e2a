//! The description of the toast that reports a components index update: one
//! line per change, each written as "- " and the change, padded with spaces to
//! the byte length of the longest change.

use vstd::prelude::*;
use vstd::string::*;
use vstd::utf8::encode_utf8;

verus! {

/// Length of `s` in bytes, as UTF-8.
pub open spec fn byte_len(s: Seq<char>) -> nat {
    encode_utf8(s).len()
}

/// The largest byte length among `lines`, 0 for none.
pub open spec fn max_byte_len(lines: Seq<Seq<char>>) -> nat
    decreases lines.len(),
{
    if lines.len() == 0 {
        0
    } else {
        let rest = max_byte_len(lines.drop_last());
        let last = byte_len(lines.last());
        if last > rest {
            last
        } else {
            rest
        }
    }
}

/// `n` spaces.
pub open spec fn spaces(n: nat) -> Seq<char> {
    Seq::new(n, |i: int| ' ')
}

/// One line of the description: "- ", the change, and spaces up to `width`
/// bytes of change.
pub open spec fn pad_line(line: Seq<char>, width: nat) -> Seq<char> {
    seq!['-', ' '] + line + spaces((width - byte_len(line)) as nat)
}

/// `lines` joined by line breaks.
pub open spec fn join_lines(lines: Seq<Seq<char>>) -> Seq<char>
    decreases lines.len(),
{
    if lines.len() == 0 {
        Seq::empty()
    } else if lines.len() == 1 {
        lines[0]
    } else {
        join_lines(lines.drop_last()) + seq!['\n'] + lines.last()
    }
}

/// The padded lines of `changes`.
pub open spec fn padded_lines(changes: Seq<Seq<char>>) -> Seq<Seq<char>> {
    changes.map_values(|line: Seq<char>| pad_line(line, max_byte_len(changes)))
}

/// The description for `changes`: none when nothing changed.
pub open spec fn changes_description(changes: Seq<Seq<char>>) -> Option<Seq<char>> {
    if changes.len() == 0 {
        None
    } else {
        Some(join_lines(padded_lines(changes)))
    }
}

/// The views of `strings`.
pub open spec fn views(strings: Seq<String>) -> Seq<Seq<char>> {
    strings.map_values(|s: String| s@)
}

proof fn lemma_max_byte_len_bound(lines: Seq<Seq<char>>, i: int)
    requires
        0 <= i < lines.len(),
    ensures
        byte_len(lines[i]) <= max_byte_len(lines),
    decreases lines.len(),
{
    if i < lines.len() - 1 {
        lemma_max_byte_len_bound(lines.drop_last(), i);
    }
}

/// Formats the changes reported by a components index update; `None` when the
/// list is empty. Each change is held in memory, so its length in bytes fits
/// in `usize`.
pub fn format_changes(changes: &Vec<String>) -> (description: Option<String>)
    requires
        forall|i: int| 0 <= i < changes@.len() ==> byte_len(#[trigger] changes@[i]@) <= usize::MAX,
    ensures
        match changes_description(views(changes@)) {
            None => description is None,
            Some(d) => description matches Some(s) && s@ == d,
        },
{
    let n = changes.len();
    if n == 0 {
        return None;
    }
    let ghost lines = views(changes@);
    let mut width: usize = 0;
    let mut i: usize = 0;
    while i < n
        invariant
            n == changes@.len(),
            lines == views(changes@),
            i <= n,
            width == max_byte_len(lines.take(i as int)),
            forall|m: int| 0 <= m < changes@.len() ==> byte_len(#[trigger] changes@[m]@) <= usize::MAX,
        decreases n - i,
    {
        let len = changes[i].as_str().len();
        proof {
            assert(lines.take(i + 1).drop_last() =~= lines.take(i as int));
            assert(lines.take(i + 1).last() == changes@[i as int]@);
            assert(len == byte_len(lines[i as int]));
        }
        if len > width {
            width = len;
        }
        i = i + 1;
    }
    assert(lines.take(n as int) =~= lines);
    let ghost padded = padded_lines(lines);
    let mut out = String::new();
    let mut j: usize = 0;
    while j < n
        invariant
            n == changes@.len(),
            lines == views(changes@),
            padded == padded_lines(lines),
            width == max_byte_len(lines),
            0 < n,
            j <= n,
            out@ == join_lines(padded.take(j as int)),
            forall|m: int| 0 <= m < changes@.len() ==> byte_len(#[trigger] changes@[m]@) <= usize::MAX,
        decreases n - j,
    {
        let line = changes[j].as_str();
        proof {
            assert(byte_len(changes@[j as int]@) <= usize::MAX);
            lemma_max_byte_len_bound(lines, j as int);
            reveal_strlit("\n");
            reveal_strlit("- ");
            reveal_strlit(" ");
        }
        let ghost before = out@;
        if j > 0 {
            out.append("\n");
        }
        out.append("- ");
        out.append(line);
        let fill = width - line.len();
        let ghost prefix = out@;
        assert(prefix == (if j > 0 { before + seq!['\n'] } else { before }) + seq!['-', ' '] + line@);
        assert(out@ =~= prefix + spaces(0));
        let mut k: usize = 0;
        while k < fill
            invariant
                k <= fill,
                " "@ == seq![' '],
                out@ == prefix + spaces(k as nat),
            decreases fill - k,
        {
            out.append(" ");
            proof {
                assert(out@ =~= prefix + spaces((k + 1) as nat));
            }
            k = k + 1;
        }
        proof {
            assert(padded[j as int] == pad_line(lines[j as int], width as nat));
            assert(pad_line(lines[j as int], width as nat) =~= seq!['-', ' '] + line@ + spaces(fill as nat));
            assert(padded.take(j + 1).drop_last() =~= padded.take(j as int));
            if j == 0 {
                assert(join_lines(padded.take(1)) == padded[0]);
                assert(out@ =~= padded[0]);
            } else {
                assert(out@ =~= join_lines(padded.take(j as int)) + seq!['\n'] + padded[j as int]);
            }
        }
        j = j + 1;
    }
    assert(padded.take(n as int) =~= padded);
    Some(out)
}

proof fn lemma_byte_len_concat(a: Seq<char>, b: Seq<char>)
    ensures
        byte_len(a + b) == byte_len(a) + byte_len(b),
    decreases a.len(),
{
    if a.len() == 0 {
        assert(a + b =~= b);
    } else {
        assert((a + b).drop_first() =~= a.drop_first() + b);
        assert((a + b)[0] == a[0]);
        lemma_byte_len_concat(a.drop_first(), b);
    }
}

proof fn lemma_byte_len_spaces(n: nat)
    ensures
        byte_len(spaces(n)) == n,
    decreases n,
{
    if n > 0 {
        assert(spaces(n).drop_first() =~= spaces((n - 1) as nat));
        assert(spaces(n)[0] == ' ');
        lemma_byte_len_spaces((n - 1) as nat);
    } else {
        assert(spaces(n) =~= Seq::<char>::empty());
    }
}

/// The lines of the description line up: each one is as long, in bytes, as the
/// longest change plus the two bytes of "- ".
pub proof fn lemma_description_lines_aligned(changes: Seq<Seq<char>>, i: int)
    requires
        0 <= i < changes.len(),
    ensures
        byte_len(padded_lines(changes)[i]) == max_byte_len(changes) + 2,
{
    let w = max_byte_len(changes);
    let line = changes[i];
    lemma_max_byte_len_bound(changes, i);
    let dash: Seq<char> = seq!['-', ' '];
    assert(dash.drop_first() =~= seq![' ']);
    assert(dash.drop_first().drop_first() =~= Seq::<char>::empty());
    assert(byte_len(Seq::<char>::empty()) == 0);
    assert(byte_len(seq![' ']) == 1);
    assert(byte_len(dash) == 2);
    lemma_byte_len_concat(dash, line);
    lemma_byte_len_concat(dash + line, spaces((w - byte_len(line)) as nat));
    lemma_byte_len_spaces((w - byte_len(line)) as nat);
}

/// Where line `i` starts when `lines` are joined by line breaks.
pub open spec fn line_offset(lines: Seq<Seq<char>>, i: int) -> int
    decreases i,
{
    if i <= 0 {
        0
    } else {
        line_offset(lines, i - 1) + lines[i - 1].len() + 1
    }
}

proof fn lemma_line_offset_prefix(lines: Seq<Seq<char>>, i: int)
    requires
        0 <= i < lines.len(),
    ensures
        line_offset(lines.drop_last(), i) == line_offset(lines, i),
    decreases i,
{
    if i > 0 {
        lemma_line_offset_prefix(lines, i - 1);
    }
}

proof fn lemma_line_offset_nonneg(lines: Seq<Seq<char>>, i: int)
    ensures
        line_offset(lines, i) >= 0,
    decreases i,
{
    if i > 0 {
        lemma_line_offset_nonneg(lines, i - 1);
    }
}

proof fn lemma_line_offset_grows(lines: Seq<Seq<char>>, i: int, k: int)
    requires
        0 <= i < k,
    ensures
        line_offset(lines, i) + lines[i].len() < line_offset(lines, k),
    decreases k,
{
    if i < k - 1 {
        lemma_line_offset_grows(lines, i, k - 1);
    }
}

proof fn lemma_join_line_at(lines: Seq<Seq<char>>, i: int)
    requires
        0 <= i < lines.len(),
    ensures
        join_lines(lines).len() == line_offset(lines, lines.len() - 1) + lines.last().len(),
        join_lines(lines).subrange(line_offset(lines, i), line_offset(lines, i) + lines[i].len()) == lines[i],
        i < lines.len() - 1 ==> join_lines(lines)[line_offset(lines, i) + lines[i].len()] == '\n',
    decreases lines.len(),
{
    let n = lines.len() as int;
    if n == 1 {
        assert(lines[0].subrange(0, lines[0].len() as int) =~= lines[0]);
    } else {
        let prev = lines.drop_last();
        let j = join_lines(lines);
        let jp = join_lines(prev);
        assert(j == jp + seq!['\n'] + lines.last());
        lemma_join_line_at(prev, n - 2);
        lemma_line_offset_prefix(lines, n - 2);
        assert(prev[n - 2] == lines[n - 2]);
        assert(jp.len() == line_offset(lines, n - 2) + lines[n - 2].len());
        assert(line_offset(lines, n - 1) == jp.len() + 1);
        if i < n - 1 {
            lemma_join_line_at(prev, i);
            lemma_line_offset_prefix(lines, i);
            assert(prev[i] == lines[i]);
            if i < n - 2 {
                lemma_line_offset_grows(lines, i, n - 2);
            }
            assert(line_offset(lines, i) + lines[i].len() <= jp.len());
            lemma_line_offset_nonneg(lines, i);
            assert(j.subrange(line_offset(lines, i), line_offset(lines, i) + lines[i].len())
                =~= jp.subrange(line_offset(lines, i), line_offset(lines, i) + lines[i].len()));
            if i < n - 2 {
                assert(j[line_offset(lines, i) + lines[i].len()] == jp[line_offset(lines, i) + lines[i].len()]);
            }
        } else {
            assert(j.subrange(line_offset(lines, i), line_offset(lines, i) + lines[i].len()) =~= lines.last());
        }
    }
}

/// Joined lines can be read back: each line stands at its offset, each but the
/// last is followed by one line break, and nothing follows the last one.
pub proof fn lemma_join_lines_layout(lines: Seq<Seq<char>>)
    requires
        lines.len() > 0,
    ensures
        forall|i: int| 0 <= i < lines.len() ==> join_lines(lines).subrange(
            line_offset(lines, i),
            line_offset(lines, i) + lines[i].len(),
        ) == #[trigger] lines[i],
        forall|i: int| 0 <= i < lines.len() - 1 ==> join_lines(lines)[line_offset(lines, i) + #[trigger] lines[i].len()] == '\n',
        join_lines(lines).len() == line_offset(lines, lines.len() - 1) + lines.last().len(),
{
    assert forall|i: int| 0 <= i < lines.len() implies join_lines(lines).subrange(
        line_offset(lines, i),
        line_offset(lines, i) + lines[i].len(),
    ) == #[trigger] lines[i] by {
        lemma_join_line_at(lines, i);
    }
    assert forall|i: int| 0 <= i < lines.len() - 1 implies join_lines(lines)[line_offset(lines, i)
        + #[trigger] lines[i].len()] == '\n' by {
        lemma_join_line_at(lines, i);
    }
    lemma_join_line_at(lines, 0);
}

/// Each line of the description is "- ", the change itself, and then spaces
/// only.
pub proof fn lemma_padded_line_shape(changes: Seq<Seq<char>>, i: int)
    requires
        0 <= i < changes.len(),
    ensures
        ({
            let line = padded_lines(changes)[i];
            &&& line.len() >= 2 + changes[i].len()
            &&& line[0] == '-' && line[1] == ' '
            &&& line.subrange(2, 2 + changes[i].len() as int) == changes[i]
            &&& forall|k: int| 2 + changes[i].len() <= k < line.len() ==> line[k] == ' '
        }),
{
    let line = padded_lines(changes)[i];
    assert(line.subrange(2, 2 + changes[i].len() as int) =~= changes[i]);
}

/// There is a description exactly when something changed, and it holds one
/// line per change, in order.
pub proof fn lemma_description_lines(changes: Seq<Seq<char>>)
    ensures
        changes_description(changes) is None <==> changes.len() == 0,
        changes.len() > 0 ==> changes_description(changes) == Some(join_lines(padded_lines(changes)))
            && padded_lines(changes).len() == changes.len(),
{
}

} // verus!
