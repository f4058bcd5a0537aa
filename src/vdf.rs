use vstd::prelude::*;

verus! {

/// Unicode white space, as `char::is_whitespace` classifies it.
pub open spec fn is_ws(c: char) -> bool {
    ('\u{9}' <= c && c <= '\u{d}') || c == ' ' || c == '\u{85}' || c == '\u{a0}'
        || c == '\u{1680}' || ('\u{2000}' <= c && c <= '\u{200a}') || c == '\u{2028}'
        || c == '\u{2029}' || c == '\u{202f}' || c == '\u{205f}' || c == '\u{3000}'
}

pub(crate) fn is_whitespace(c: char) -> (r: bool)
    ensures
        r == is_ws(c),
{
    ('\u{9}' <= c && c <= '\u{d}') || c == ' ' || c == '\u{85}' || c == '\u{a0}'
        || c == '\u{1680}' || ('\u{2000}' <= c && c <= '\u{200a}') || c == '\u{2028}'
        || c == '\u{2029}' || c == '\u{202f}' || c == '\u{205f}' || c == '\u{3000}'
}

/// `s` without its leading white space.
pub open spec fn trim_start(s: Seq<char>) -> Seq<char>
    decreases s.len(),
{
    if s.len() > 0 && is_ws(s[0]) {
        trim_start(s.drop_first())
    } else {
        s
    }
}

/// `s` without its trailing white space.
pub open spec fn trim_end(s: Seq<char>) -> Seq<char>
    decreases s.len(),
{
    if s.len() > 0 && is_ws(s.last()) {
        trim_end(s.drop_last())
    } else {
        s
    }
}

/// `s` without leading or trailing white space.
pub open spec fn trim(s: Seq<char>) -> Seq<char> {
    trim_end(trim_start(s))
}

/// The value of a manifest line of the shape `"<key>"`, white space, `"<value>"`,
/// once the line is trimmed; `None` for a line of any other shape.
pub open spec fn vdf_value(line: Seq<char>, key: Seq<char>) -> Option<Seq<char>> {
    let t = trim(line);
    let k = key.len() as int;
    if t.len() >= k + 3 && t[0] == '"' && t.subrange(1, k + 1) == key && t[k + 1] == '"'
        && is_ws(t[k + 2]) {
        let v = trim(t.subrange(k + 2, t.len() as int));
        if v.len() >= 2 && v[0] == '"' && v.last() == '"' {
            Some(v.subrange(1, v.len() - 1))
        } else {
            None
        }
    } else {
        None
    }
}

/// Bounds `(a, b)` within `from..to` such that `s[a..b]` is `s[from..to]` trimmed.
pub(crate) fn trim_bounds(s: &str, from: usize, to: usize) -> (r: (usize, usize))
    requires
        from <= to <= s@.len(),
    ensures
        from <= r.0 <= r.1 <= to,
        s@.subrange(r.0 as int, r.1 as int) == trim(s@.subrange(from as int, to as int)),
{
    let mut a = from;
    while a < to && is_whitespace(s.get_char(a))
        invariant
            from <= a <= to <= s@.len(),
            trim_start(s@.subrange(from as int, to as int)) == trim_start(
                s@.subrange(a as int, to as int),
            ),
        decreases to - a,
    {
        assert(s@.subrange(a as int, to as int).drop_first() =~= s@.subrange(
            a + 1,
            to as int,
        ));
        a = a + 1;
    }
    let mut b = to;
    while b > a && is_whitespace(s.get_char(b - 1))
        invariant
            from <= a <= b <= to <= s@.len(),
            trim_start(s@.subrange(from as int, to as int)) == s@.subrange(a as int, to as int),
            trim_end(s@.subrange(a as int, to as int)) == trim_end(
                s@.subrange(a as int, b as int),
            ),
        decreases b - a,
    {
        assert(s@.subrange(a as int, b as int).drop_last() =~= s@.subrange(
            a as int,
            b - 1,
        ));
        b = b - 1;
    }
    (a, b)
}

/// Whether `key` occurs in `s` at char position `pos`.
pub(crate) fn matches_at(s: &str, pos: usize, key: &str) -> (r: bool)
    requires
        pos + key@.len() <= s@.len(),
    ensures
        r == (s@.subrange(pos as int, pos + key@.len()) == key@),
{
    let k = key.unicode_len();
    let n = s.unicode_len();
    let mut i: usize = 0;
    while i < k
        invariant
            i <= k,
            k == key@.len(),
            n == s@.len(),
            pos + k <= n,
            forall|j: int| 0 <= j < i ==> s@[pos + j] == key@[j],
        decreases k - i,
    {
        if s.get_char(pos + i) != key.get_char(i) {
            proof {
                assert(s@.subrange(pos as int, pos + k)[i as int] != key@[i as int]);
            }
            return false;
        }
        i = i + 1;
    }
    proof {
        assert(s@.subrange(pos as int, pos + k) =~= key@);
    }
    true
}

/// Reads one manifest line: the value paired with `target_name` if the line
/// has exactly the shape `"<target_name>"`, white space, `"<value>"`; no match
/// for every other line, whatever it holds.
pub fn parse_vdf_line<'a>(line: &'a str, target_name: &str) -> (r: Option<&'a str>)
    ensures
        r matches Some(v) ==> vdf_value(line@, target_name@) == Some(v@),
        r is None ==> vdf_value(line@, target_name@) is None,
{
    let len = line.unicode_len();
    let k = target_name.unicode_len();
    let (a, b) = trim_bounds(line, 0, len);
    proof {
        assert(line@.subrange(0, len as int) =~= line@);
    }
    let ghost t = line@.subrange(a as int, b as int);
    if b - a < 3 || b - a - 3 < k || line.get_char(a) != '"' {
        return None;
    }
    let key_ok = matches_at(line, a + 1, target_name);
    proof {
        assert(t.subrange(1, k + 1) =~= line@.subrange(a + 1, a + 1 + k));
    }
    if !key_ok || line.get_char(a + k + 1) != '"' || !is_whitespace(line.get_char(a + k + 2)) {
        return None;
    }
    let (c, d) = trim_bounds(line, a + k + 2, b);
    proof {
        assert(t.subrange(k + 2, t.len() as int) =~= line@.subrange(a + k + 2, b as int));
    }
    if d - c >= 2 && line.get_char(c) == '"' && line.get_char(d - 1) == '"' {
        let v = line.substring_char(c + 1, d - 1);
        proof {
            let w = line@.subrange(c as int, d as int);
            assert(v@ =~= w.subrange(1, w.len() - 1));
        }
        Some(v)
    } else {
        None
    }
}

/// `l` without one trailing carriage return.
pub open spec fn strip_cr(l: Seq<char>) -> Seq<char> {
    if l.len() > 0 && l.last() == '\r' {
        l.drop_last()
    } else {
        l
    }
}

/// The lines of `s[start..]`, scanning from `i`: split at each `\n`, a `\r`
/// before it dropped, with no empty line after a final `\n`.
pub open spec fn lines_from(s: Seq<char>, start: int, i: int) -> Seq<Seq<char>>
    decreases s.len() - i,
{
    if i >= s.len() {
        if start < s.len() {
            seq![s.subrange(start, s.len() as int)]
        } else {
            seq![]
        }
    } else if s[i] == '\n' {
        seq![strip_cr(s.subrange(start, i))] + lines_from(s, i + 1, i + 1)
    } else {
        lines_from(s, start, i + 1)
    }
}

/// The lines of a text, as `str::lines` yields them.
pub open spec fn lines(s: Seq<char>) -> Seq<Seq<char>> {
    lines_from(s, 0, 0)
}

/// The values found for `key` in the lines `ls`, in line order.
pub open spec fn values(ls: Seq<Seq<char>>, key: Seq<char>) -> Seq<Seq<char>>
    decreases ls.len(),
{
    if ls.len() == 0 {
        seq![]
    } else {
        values(ls.drop_last(), key) + match vdf_value(ls.last(), key) {
            Some(v) => seq![v],
            None => seq![],
        }
    }
}

/// Every value given to `key` in the manifest `text`, in the order of its lines.
pub fn values_for_key<'a>(text: &'a str, key: &str) -> (r: Vec<&'a str>)
    ensures
        r@.len() == values(lines(text@), key@).len(),
        forall|j: int| 0 <= j < r@.len() ==> (#[trigger] r@[j])@ == values(lines(text@), key@)[j],
{
    let n = text.unicode_len();
    let mut out: Vec<&'a str> = Vec::new();
    let mut start: usize = 0;
    let mut i: usize = 0;
    let ghost mut done: Seq<Seq<char>> = seq![];
    while i < n
        invariant
            n == text@.len(),
            start <= i <= n,
            done + lines_from(text@, start as int, i as int) == lines(text@),
            out@.len() == values(done, key@).len(),
            forall|j: int| 0 <= j < out@.len() ==> (#[trigger] out@[j])@ == values(done, key@)[j],
        decreases n - i,
    {
        if text.get_char(i) == '\n' {
            let end = if i > start && text.get_char(i - 1) == '\r' {
                i - 1
            } else {
                i
            };
            let line = text.substring_char(start, end);
            let ghost rest = lines_from(text@, i + 1, i + 1);
            proof {
                assert(line@ =~= strip_cr(text@.subrange(start as int, i as int)));
                assert(done.push(line@) + rest =~= done + (seq![line@] + rest));
                assert(done.push(line@).drop_last() =~= done);
            }
            let found = parse_vdf_line(line, key);
            if let Some(v) = found {
                out.push(v);
            }
            proof {
                done = done.push(line@);
            }
            assert(out@.len() == values(done, key@).len());
            start = i + 1;
        }
        i = i + 1;
    }
    if start < n {
        let line = text.substring_char(start, n);
        proof {
            assert(done.push(line@) =~= done + lines_from(text@, start as int, n as int));
            assert(done.push(line@).drop_last() =~= done);
        }
        let found = parse_vdf_line(line, key);
        if let Some(v) = found {
            out.push(v);
        }
        proof {
            done = done.push(line@);
        }
    } else {
        proof {
            assert(done =~= done + lines_from(text@, start as int, n as int));
        }
    }
    out
}

} // verus!
