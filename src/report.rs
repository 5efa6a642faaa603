//! Layout of one tag in the report that describes a file: a key column and
//! the value, its lines wrapped to a fixed width.

use vstd::prelude::*;
use vstd::string::{StrSliceExecFns, StringExecFns};

use crate::text::{decimal_padded, padded_decimal, repeat};

verus! {

/// Width of the key column.
pub const KEY_WIDTH: usize = 28;

/// Characters of a value shown on one row.
pub const WRAP_WIDTH: usize = 72;

/// The key padded with spaces to the column's width; a longer key is cut to
/// 26 characters followed by two dots.
pub open spec fn key_column(key: Seq<char>) -> Seq<char> {
    if key.len() <= 28 {
        key + repeat(" "@, (28 - key.len()) as nat)
    } else {
        key.subrange(0, 26) + ".."@
    }
}

/// Without one carriage return at the end.
pub open spec fn strip_cr(line: Seq<char>) -> Seq<char> {
    if line.len() > 0 && line.last() == '\r' {
        line.drop_last()
    } else {
        line
    }
}

/// The lines of `s` from the line that starts at `start`, scanning from `i`:
/// lines end at a newline, a carriage return before the newline is dropped,
/// and a final newline opens no empty line.
pub open spec fn lines_from(s: Seq<char>, start: int, i: int) -> Seq<Seq<char>>
    decreases s.len() - i,
{
    if i < 0 || i >= s.len() {
        if 0 <= start < s.len() {
            seq![s.subrange(start, s.len() as int)]
        } else {
            Seq::empty()
        }
    } else if s[i] == '\n' {
        seq![strip_cr(s.subrange(start, i))] + lines_from(s, i + 1, i + 1)
    } else {
        lines_from(s, start, i + 1)
    }
}

/// The lines of `s`.
pub open spec fn lines_of(s: Seq<char>) -> Seq<Seq<char>> {
    lines_from(s, 0, 0)
}

/// `line` with `sep` after every full row of 72 characters that more
/// characters follow.
pub open spec fn wrap(line: Seq<char>, sep: Seq<char>) -> Seq<char>
    decreases line.len(),
{
    if line.len() <= 72 {
        line
    } else {
        line.subrange(0, 72) + sep + wrap(line.subrange(72, line.len() as int), sep)
    }
}

/// The wrapped lines, each after the first preceded by `line_sep`.
pub open spec fn body(lines: Seq<Seq<char>>, line_sep: Seq<char>, wrap_sep: Seq<char>) -> Seq<char>
    decreases lines.len(),
{
    if lines.len() == 0 {
        Seq::empty()
    } else {
        body(lines.drop_last(), line_sep, wrap_sep) + (if lines.len() > 1 {
            line_sep
        } else {
            Seq::empty()
        }) + wrap(lines.last(), wrap_sep)
    }
}

/// Start of a row that continues the value: the margin, then `mark`.
pub open spec fn continuation(indent: nat, mark: Seq<char>) -> Seq<char> {
    "\n| "@ + repeat(" "@, indent + 33) + mark
}

/// The report entry of tag number `idx` with `key` and `value`, indented by
/// `indent`.
pub open spec fn tag_item(idx: nat, key: Seq<char>, value: Seq<char>, indent: nat) -> Seq<char> {
    "| "@ + repeat(" "@, indent) + "["@ + decimal_padded(idx, 2) + "] "@ + key_column(key) + " : "@
        + body(lines_of(value), continuation(indent, " : "@), continuation(indent, "   "@))
}

fn spaces(n: usize) -> (r: String)
    ensures
        r@ == repeat(" "@, n as nat),
{
    let mut out = String::new();
    let mut i: usize = 0;
    while i < n
        invariant
            i <= n,
            out@ == repeat(" "@, i as nat),
        decreases n - i,
    {
        out.append(" ");
        i = i + 1;
    }
    out
}

fn append_wrapped(out: &mut String, line: &str, sep: &str)
    ensures
        final(out)@ == old(out)@ + wrap(line@, sep@),
{
    let len = line.unicode_len();
    let mut pos: usize = 0;
    assert(line@.subrange(0, len as int) =~= line@);
    while len - pos > WRAP_WIDTH
        invariant
            len == line@.len(),
            pos <= len,
            old(out)@ + wrap(line@, sep@) == out@ + wrap(line@.subrange(pos as int, len as int), sep@),
        decreases len - pos,
    {
        let ghost rest = line@.subrange(pos as int, len as int);
        assert(rest.subrange(0, 72) =~= line@.subrange(pos as int, pos + 72));
        assert(rest.subrange(72, rest.len() as int) =~= line@.subrange(pos + 72, len as int));
        out.append(line.substring_char(pos, pos + WRAP_WIDTH));
        out.append(sep);
        pos = pos + WRAP_WIDTH;
    }
    out.append(line.substring_char(pos, len));
}

/// Formats tag number `idx` for the report: the key in a column of 28
/// characters, then the value one line per row, each line wrapped every 72
/// characters, continuation rows aligned under the value.
pub fn print_tag_item(idx: usize, key: &str, value: &str, indent: usize) -> (r: String)
    requires
        indent + 33 <= usize::MAX,
    ensures
        r@ == tag_item(idx as nat, key@, value@, indent as nat),
{
    let mut out = String::from_str("| ");
    out.append(spaces(indent).as_str());
    out.append("[");
    out.append(padded_decimal(idx as u64, 2).as_str());
    out.append("] ");
    let klen = key.unicode_len();
    if klen <= KEY_WIDTH {
        out.append(key);
        out.append(spaces(KEY_WIDTH - klen).as_str());
    } else {
        out.append(key.substring_char(0, 26));
        out.append("..");
    }
    out.append(" : ");
    let mut line_prefix = String::from_str("\n| ");
    line_prefix.append(spaces(indent + 33).as_str());
    let mut wrap_prefix = line_prefix.clone();
    line_prefix.append(" : ");
    wrap_prefix.append("   ");
    let ghost head = out@;
    let ghost line_sep = continuation(indent as nat, " : "@);
    let ghost wrap_sep = continuation(indent as nat, "   "@);
    assert(head == "| "@ + repeat(" "@, indent as nat) + "["@ + decimal_padded(idx as nat, 2) + "] "@
        + key_column(key@) + " : "@);

    let n = value.unicode_len();
    let ghost s = value@;
    let ghost mut done: Seq<Seq<char>> = Seq::empty();
    let mut count: usize = 0;
    let mut start: usize = 0;
    let mut i: usize = 0;
    while i < n
        invariant
            n == s.len(),
            s == value@,
            start <= i <= n,
            count == done.len(),
            count <= start,
            line_prefix@ == line_sep,
            wrap_prefix@ == wrap_sep,
            lines_of(s) == done + lines_from(s, start as int, i as int),
            out@ == head + body(done, line_sep, wrap_sep),
        decreases n - i,
    {
        if value.get_char(i) == '\n' {
            let end = if i > start && value.get_char(i - 1) == '\r' {
                i - 1
            } else {
                i
            };
            let ghost line = strip_cr(s.subrange(start as int, i as int));
            assert(s.subrange(start as int, end as int) =~= line);
            let ghost prev = done;
            if count > 0 {
                out.append(line_prefix.as_str());
            }
            append_wrapped(&mut out, value.substring_char(start, end), wrap_prefix.as_str());
            proof {
                done = done.push(line);
                assert(done.drop_last() =~= prev);
                assert(lines_from(s, start as int, i as int) == seq![line] + lines_from(
                    s,
                    i + 1,
                    i + 1,
                ));
                assert(prev + lines_from(s, start as int, i as int) =~= done + lines_from(
                    s,
                    i + 1,
                    i + 1,
                ));
            }
            count = count + 1;
            start = i + 1;
        }
        i = i + 1;
    }
    if start < n {
        let ghost line = s.subrange(start as int, n as int);
        let ghost prev = done;
        if count > 0 {
            out.append(line_prefix.as_str());
        }
        append_wrapped(&mut out, value.substring_char(start, n), wrap_prefix.as_str());
        proof {
            done = done.push(line);
            assert(done.drop_last() =~= prev);
            assert(lines_from(s, start as int, n as int) == seq![line]);
            assert(prev + seq![line] =~= done);
        }
    } else {
        assert(lines_from(s, start as int, n as int) == Seq::<Seq<char>>::empty());
        assert(done + Seq::<Seq<char>>::empty() =~= done);
    }
    out
}

} // verus!
