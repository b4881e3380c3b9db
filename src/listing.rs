use vstd::prelude::*;

verus! {

/// A line with the carriage return of a `\r\n` ending taken off.
pub open spec fn strip_cr(l: Seq<char>) -> Seq<char> {
    if l.len() > 0 && l.last() == '\r' {
        l.drop_last()
    } else {
        l
    }
}

/// The lines of `s` from position `start` on, where `s[start..i]` holds no
/// newline. Each `\n` ends a line (a `\r` right before it is dropped), and
/// text after the last `\n` forms a final line only when it is not empty.
pub open spec fn lines_from(s: Seq<char>, start: int, i: int) -> Seq<Seq<char>>
    decreases s.len() - i,
{
    if i >= s.len() {
        if start < s.len() {
            seq![s.subrange(start, s.len() as int)]
        } else {
            seq![]
        }
    } else if s[i] == '\n' {
        seq![strip_cr(s.subrange(start, i))] + lines_from(s, i + 1, i + 1)
    } else {
        lines_from(s, start, i + 1)
    }
}

/// The lines of `s`, as `str::lines` yields them.
pub open spec fn lines(s: Seq<char>) -> Seq<Seq<char>> {
    lines_from(s, 0, 0)
}

/// Splits the output of `git lfs ls-files -n` into the file names it lists,
/// one per line, in order.
pub fn lfs_file_names(stdout: &str) -> (r: Vec<String>)
    ensures
        r.deep_view() == lines(stdout@),
{
    let n = stdout.unicode_len();
    let mut out: Vec<String> = Vec::new();
    let mut start: usize = 0;
    let mut i: usize = 0;
    while i < n
        invariant
            n == stdout@.len(),
            start <= i <= n,
            out.deep_view() + lines_from(stdout@, start as int, i as int) == lines(stdout@),
        decreases n - i,
    {
        let c = stdout.get_char(i);
        if c == '\n' {
            let mut end: usize = i;
            if i > start && stdout.get_char(i - 1) == '\r' {
                end = i - 1;
            }
            let part = stdout.substring_char(start, end);
            let line = String::from_str(part);
            let ghost s = stdout@;
            let ghost rest = lines_from(s, i + 1, i + 1);
            assert(line@ =~= strip_cr(s.subrange(start as int, i as int)));
            assert(lines_from(s, start as int, i as int) == seq![line@] + rest);
            let ghost before = out.deep_view();
            out.push(line);
            assert(out.deep_view() =~= before.push(line@));
            assert(out.deep_view() + rest =~= before + (seq![line@] + rest));
            start = i + 1;
        }
        i = i + 1;
    }
    if start < n {
        let part = stdout.substring_char(start, n);
        let line = String::from_str(part);
        let ghost before = out.deep_view();
        out.push(line);
        assert(out.deep_view() =~= before.push(line@));
        assert(out.deep_view() =~= before + lines_from(stdout@, start as int, n as int));
    } else {
        assert(out.deep_view() =~= out.deep_view() + lines_from(stdout@, start as int, n as int));
    }
    out
}

} // verus!
