//! Character-level text handling shared by the configuration readers:
//! line splitting as `str::lines` does it, whitespace splitting and trimming
//! as `char::is_whitespace` defines whitespace, and joining.
use vstd::prelude::*;

verus! {

/// The Unicode `White_Space` code points, the set that `char::is_whitespace` accepts.
pub open spec fn is_ws(c: char) -> bool {
    let u = c as u32;
    ||| 0x9 <= u <= 0xd
    ||| u == 0x20
    ||| u == 0x85
    ||| u == 0xa0
    ||| u == 0x1680
    ||| 0x2000 <= u <= 0x200a
    ||| u == 0x2028
    ||| u == 0x2029
    ||| u == 0x202f
    ||| u == 0x205f
    ||| u == 0x3000
}

/// No character of `s` is whitespace.
pub open spec fn ws_free(s: Seq<char>) -> bool {
    forall|i: int| 0 <= i < s.len() ==> !is_ws(#[trigger] s[i])
}

/// A non-empty piece of text without whitespace: what whitespace splitting yields.
pub open spec fn is_word(s: Seq<char>) -> bool {
    s.len() > 0 && ws_free(s)
}

/// The abstract contents of a list of character buffers.
pub open spec fn views(v: Seq<Vec<char>>) -> Seq<Seq<char>> {
    v.map_values(|x: Vec<char>| x@)
}

/// The abstract contents of a list of strings.
pub open spec fn string_views(v: Seq<String>) -> Seq<Seq<char>> {
    v.map_values(|x: String| x@)
}

/// `s` starts with `p`.
pub open spec fn has_prefix(s: Seq<char>, p: Seq<char>) -> bool {
    p.len() <= s.len() && s.take(p.len() as int) == p
}

/// The pieces of `s` between newline characters, as `str::split('\n')` yields them.
pub open spec fn segments(s: Seq<char>) -> Seq<Seq<char>>
    decreases s.len(),
{
    if s.len() == 0 {
        seq![Seq::<char>::empty()]
    } else {
        let p = segments(s.drop_last());
        if s.last() == '\n' {
            p.push(Seq::<char>::empty())
        } else {
            p.update(p.len() - 1, p.last().push(s.last()))
        }
    }
}

/// `l` without one trailing carriage return.
pub open spec fn strip_cr(l: Seq<char>) -> Seq<char> {
    if l.len() > 0 && l.last() == '\r' {
        l.drop_last()
    } else {
        l
    }
}

/// Each of `ls` without one trailing carriage return.
pub open spec fn strip_crs(ls: Seq<Seq<char>>) -> Seq<Seq<char>> {
    ls.map_values(|l: Seq<char>| strip_cr(l))
}

/// The lines of `s` as `str::lines` yields them: split at `\n`, a `\r` right
/// before a `\n` dropped, and no empty line after a final `\n`.
pub open spec fn lines(s: Seq<char>) -> Seq<Seq<char>> {
    let segs = segments(s);
    let body = strip_crs(segs.drop_last());
    if segs.last().len() == 0 {
        body
    } else {
        body.push(segs.last())
    }
}

/// The whitespace-separated words of `s`, as `str::split_whitespace` yields them.
pub open spec fn words(s: Seq<char>) -> Seq<Seq<char>>
    decreases s.len(),
{
    if s.len() == 0 {
        seq![]
    } else {
        let w = words(s.drop_last());
        let c = s.last();
        if is_ws(c) {
            w
        } else if s.len() >= 2 && !is_ws(s[s.len() - 2]) {
            w.update(w.len() - 1, w.last().push(c))
        } else {
            w.push(seq![c])
        }
    }
}

/// `s` without leading whitespace.
pub open spec fn trim_start(s: Seq<char>) -> Seq<char>
    decreases s.len(),
{
    if s.len() > 0 && is_ws(s[0]) {
        trim_start(s.drop_first())
    } else {
        s
    }
}

/// `s` without trailing whitespace.
pub open spec fn trim_end(s: Seq<char>) -> Seq<char>
    decreases s.len(),
{
    if s.len() > 0 && is_ws(s.last()) {
        trim_end(s.drop_last())
    } else {
        s
    }
}

/// `s` without leading and trailing whitespace, as `str::trim` gives it.
pub open spec fn trim(s: Seq<char>) -> Seq<char> {
    trim_end(trim_start(s))
}

/// The position of the first `c` in `s`, or the length of `s` where there is none.
pub open spec fn find_char(s: Seq<char>, c: char) -> int
    decreases s.len(),
{
    if s.len() == 0 {
        0
    } else if s[0] == c {
        0
    } else {
        1 + find_char(s.drop_first(), c)
    }
}

/// The parts joined with `sep` between each two neighbours.
pub open spec fn join(parts: Seq<Seq<char>>, sep: Seq<char>) -> Seq<char>
    decreases parts.len(),
{
    if parts.len() == 0 {
        Seq::<char>::empty()
    } else if parts.len() == 1 {
        parts[0]
    } else {
        join(parts.drop_last(), sep) + sep + parts.last()
    }
}

/// Whether `c` is whitespace.
pub fn is_whitespace_char(c: char) -> (r: bool)
    ensures
        r == is_ws(c),
{
    let u = c as u32;
    (0x9 <= u && u <= 0xd) || u == 0x20 || u == 0x85 || u == 0xa0 || u == 0x1680 || (0x2000
        <= u && u <= 0x200a) || u == 0x2028 || u == 0x2029 || u == 0x202f || u == 0x205f || u
        == 0x3000
}

/// The characters of `s`.
pub fn chars_of(s: &str) -> (v: Vec<char>)
    ensures
        v@ == s@,
{
    let mut v: Vec<char> = Vec::new();
    for c in it: s.chars()
        invariant
            v@ == it.seq().take(it.index() as int),
    {
        v.push(c);
        assert(v@ =~= it.seq().take(it.index() + 1));
    }
    v
}

/// Collects the characters `v` into a `String` with `FromIterator::from_iter` (through
/// `collect`). Claims that the string holds exactly those characters, in order.
#[verifier::external_body]
pub(crate) fn string_of(v: &[char]) -> (s: String)
    ensures
        s@ == v@,
{
    v.iter().collect()
}

/// Whether the two character buffers hold the same text.
pub fn same_chars(a: &Vec<char>, b: &Vec<char>) -> (r: bool)
    ensures
        r == (a@ == b@),
{
    if a.len() != b.len() {
        return false;
    }
    let n = a.len();
    for i in 0..n
        invariant
            n == a.len(),
            n == b.len(),
            forall|j: int| 0 <= j < i ==> a@[j] == b@[j],
    {
        if a[i] != b[i] {
            return false;
        }
    }
    assert(a@ =~= b@);
    true
}

/// Whether `s` starts with `p`.
pub fn starts_with_chars(s: &Vec<char>, p: &Vec<char>) -> (r: bool)
    ensures
        r == has_prefix(s@, p@),
{
    if p.len() > s.len() {
        return false;
    }
    let n = p.len();
    for i in 0..n
        invariant
            n == p.len(),
            n <= s.len(),
            forall|j: int| 0 <= j < i ==> s@[j] == p@[j],
    {
        if s[i] != p[i] {
            assert(s@.take(n as int)[i as int] != p@[i as int]);
            return false;
        }
    }
    assert(s@.take(n as int) =~= p@);
    true
}

/// The characters of `s` from position `start` on.
pub fn chars_from(s: &Vec<char>, start: usize) -> (r: Vec<char>)
    requires
        start <= s.len(),
    ensures
        r@ == s@.skip(start as int),
{
    let mut r: Vec<char> = Vec::new();
    let n = s.len();
    for i in start..n
        invariant
            n == s.len(),
            start <= i <= n,
            r@ == s@.subrange(start as int, i as int),
    {
        r.push(s[i]);
        assert(r@ =~= s@.subrange(start as int, i + 1));
    }
    assert(r@ =~= s@.skip(start as int));
    r
}

/// The characters of `s` before position `end`.
pub fn chars_before(s: &Vec<char>, end: usize) -> (r: Vec<char>)
    requires
        end <= s.len(),
    ensures
        r@ == s@.take(end as int),
{
    let mut r: Vec<char> = Vec::new();
    for i in 0..end
        invariant
            end <= s.len(),
            r@ == s@.take(i as int),
    {
        r.push(s[i]);
        assert(r@ =~= s@.take(i + 1));
    }
    r
}

/// The segments of `s` have at least one element.
pub proof fn lemma_segments_nonempty(s: Seq<char>)
    ensures
        segments(s).len() >= 1,
    decreases s.len(),
{
    if s.len() > 0 {
        lemma_segments_nonempty(s.drop_last());
    }
}

/// No segment holds a newline.
pub proof fn lemma_segments_no_newline(s: Seq<char>)
    ensures
        forall|i: int| 0 <= i < segments(s).len() ==> !(#[trigger] segments(s)[i]).contains('\n'),
    decreases s.len(),
{
    if s.len() > 0 {
        lemma_segments_no_newline(s.drop_last());
        lemma_segments_nonempty(s.drop_last());
        let p = segments(s.drop_last());
        if s.last() != '\n' {
            let l = p.last().push(s.last());
            assert forall|j: int| 0 <= j < l.len() implies l[j] != '\n' by {
                if j < l.len() - 1 {
                    assert(l[j] == p[p.len() - 1][j]);
                }
            }
        }
    }
}

/// The lines of `s`, as `str::lines` yields them.
pub fn lines_of(s: &Vec<char>) -> (out: Vec<Vec<char>>)
    ensures
        views(out@) == lines(s@),
{
    let mut out: Vec<Vec<char>> = Vec::new();
    let mut cur: Vec<char> = Vec::new();
    let n = s.len();
    for i in 0..n
        invariant
            n == s.len(),
            strip_crs(segments(s@.take(i as int)).drop_last()) == views(out@),
            segments(s@.take(i as int)).last() == cur@,
            segments(s@.take(i as int)).len() >= 1,
    {
        let ghost pre = s@.take(i as int);
        let ghost now = s@.take(i + 1);
        assert(now.drop_last() =~= pre);
        let c = s[i];
        if c == '\n' {
            let mut line = cur;
            if line.len() > 0 && line[line.len() - 1] == '\r' {
                line.pop();
            }
            let ghost sp = segments(pre);
            assert(line@ == strip_cr(sp.last()));
            let ghost old_views = views(out@);
            out.push(line);
            cur = Vec::new();
            assert(views(out@) =~= old_views.push(line@));
            assert(segments(now) == sp.push(Seq::<char>::empty()));
            assert(segments(now).drop_last() =~= sp);
            assert(sp =~= sp.drop_last().push(sp.last()));
            assert(strip_crs(sp) =~= strip_crs(sp.drop_last()).push(strip_cr(sp.last())));
        } else {
            cur.push(c);
            let ghost sp = segments(pre);
            assert(segments(now) == sp.update(sp.len() - 1, sp.last().push(c)));
            assert(segments(now).drop_last() =~= sp.drop_last());
        }
    }
    assert(s@.take(n as int) =~= s@);
    if cur.len() == 0 {
        out
    } else {
        let ghost before = views(out@);
        out.push(cur);
        assert(views(out@) =~= before.push(cur@));
        out
    }
}

/// The whitespace-separated words of `s`, as `str::split_whitespace` yields them.
pub fn words_of(s: &Vec<char>) -> (out: Vec<Vec<char>>)
    ensures
        views(out@) == words(s@),
{
    let mut out: Vec<Vec<char>> = Vec::new();
    let mut cur: Vec<char> = Vec::new();
    let mut in_word = false;
    let n = s.len();
    for i in 0..n
        invariant
            n == s.len(),
            in_word == (i > 0 && !is_ws(s@[i - 1])),
            in_word ==> words(s@.take(i as int)) == views(out@).push(cur@),
            !in_word ==> words(s@.take(i as int)) == views(out@),
            !in_word ==> cur@.len() == 0,
    {
        let ghost pre = s@.take(i as int);
        let ghost now = s@.take(i + 1);
        assert(now.drop_last() =~= pre);
        assert(now.last() == s@[i as int]);
        let c = s[i];
        if is_whitespace_char(c) {
            if in_word {
                let ghost before = views(out@);
                out.push(cur);
                assert(views(out@) =~= before.push(cur@));
                cur = Vec::new();
            }
            in_word = false;
        } else {
            if in_word {
                assert(now[now.len() - 2] == s@[i - 1]);
                let ghost w = views(out@).push(cur@);
                cur.push(c);
                assert(words(now) =~= views(out@).push(cur@));
            } else {
                cur.push(c);
                assert(cur@ =~= seq![c]);
                if i > 0 {
                    assert(now[now.len() - 2] == s@[i - 1]);
                }
            }
            in_word = true;
        }
    }
    assert(s@.take(n as int) =~= s@);
    if in_word {
        let ghost before = views(out@);
        out.push(cur);
        assert(views(out@) =~= before.push(cur@));
    }
    out
}

/// The first position of `c` in `s`, or `None` where `s` holds no `c`.
pub fn find_char_in(s: &Vec<char>, c: char) -> (r: Option<usize>)
    ensures
        match r {
            Some(i) => i < s.len() && i == find_char(s@, c),
            None => find_char(s@, c) == s@.len(),
        },
{
    let n = s.len();
    assert(s@.skip(0) =~= s@);
    for i in 0..n
        invariant
            n == s.len(),
            find_char(s@, c) == i + find_char(s@.skip(i as int), c),
    {
        assert(s@.skip(i as int).drop_first() =~= s@.skip(i + 1));
        if s[i] == c {
            return Some(i);
        }
    }
    assert(s@.skip(n as int).len() == 0);
    None
}

/// `s` without leading and trailing whitespace.
pub fn trim_chars(s: &Vec<char>) -> (r: Vec<char>)
    ensures
        r@ == trim(s@),
{
    let n = s.len();
    let mut lo: usize = 0;
    assert(s@.skip(0) =~= s@);
    while lo < n && is_whitespace_char(s[lo])
        invariant
            n == s.len(),
            lo <= n,
            trim_start(s@) == trim_start(s@.skip(lo as int)),
        decreases n - lo,
    {
        assert(s@.skip(lo as int).drop_first() =~= s@.skip(lo + 1));
        lo = lo + 1;
    }
    assert(trim_start(s@.skip(lo as int)) == s@.skip(lo as int));
    let mut hi: usize = n;
    while hi > lo && is_whitespace_char(s[hi - 1])
        invariant
            n == s.len(),
            lo <= hi <= n,
            trim(s@) == trim_end(s@.subrange(lo as int, hi as int)),
        decreases hi,
    {
        assert(s@.subrange(lo as int, hi as int).drop_last() =~= s@.subrange(
            lo as int,
            hi - 1,
        ));
        hi = hi - 1;
    }
    let mut r: Vec<char> = Vec::new();
    for i in lo..hi
        invariant
            lo <= hi <= n,
            n == s.len(),
            r@ == s@.subrange(lo as int, i as int),
    {
        r.push(s[i]);
        assert(r@ =~= s@.subrange(lo as int, i + 1));
    }
    r
}

/// The parts joined with the single character `sep` between each two neighbours.
pub fn join_with(parts: &Vec<Vec<char>>, sep: char) -> (r: Vec<char>)
    ensures
        r@ == join(views(parts@), seq![sep]),
{
    let mut r: Vec<char> = Vec::new();
    let n = parts.len();
    for i in 0..n
        invariant
            n == parts.len(),
            r@ == join(views(parts@).take(i as int), seq![sep]),
    {
        let ghost pre = views(parts@).take(i as int);
        let ghost now = views(parts@).take(i + 1);
        assert(now.drop_last() =~= pre);
        if i > 0 {
            r.push(sep);
        }
        let ghost before = r@;
        let part = &parts[i];
        let m = part.len();
        for j in 0..m
            invariant
                m == part.len(),
                r@ == before + part@.take(j as int),
        {
            r.push(part[j]);
            assert(r@ =~= before + part@.take(j + 1));
        }
        assert(part@.take(m as int) =~= part@);
        if i == 0 {
            assert(r@ =~= now[0]);
        } else {
            assert(r@ =~= join(pre, seq![sep]) + seq![sep] + now.last());
        }
    }
    assert(views(parts@).take(n as int) =~= views(parts@));
    r
}


/// Splitting after text without a newline only lengthens the last segment.
pub proof fn lemma_segments_append_plain(a: Seq<char>, b: Seq<char>)
    requires
        !b.contains('\n'),
    ensures
        segments(a + b) == segments(a).update(
            segments(a).len() - 1,
            segments(a).last() + b,
        ),
    decreases b.len(),
{
    lemma_segments_nonempty(a);
    if b.len() == 0 {
        assert(a + b =~= a);
        assert(segments(a).last() + b =~= segments(a).last());
        assert(segments(a).update(segments(a).len() - 1, segments(a).last() + b) =~= segments(a));
    } else {
        let b1 = b.drop_last();
        assert(!b1.contains('\n')) by {
            if b1.contains('\n') {
                let j = choose|j: int| 0 <= j < b1.len() && b1[j] == '\n';
                assert(b[j] == '\n');
            }
        }
        lemma_segments_append_plain(a, b1);
        assert((a + b).drop_last() =~= a + b1);
        assert((a + b).last() == b.last());
        assert(b.last() != '\n') by {
            assert(b[b.len() - 1] == b.last());
        }
        let sa = segments(a);
        let p = segments(a + b1);
        assert(p == sa.update(sa.len() - 1, sa.last() + b1));
        assert(p.last() == sa.last() + b1);
        assert((sa.last() + b1).push(b.last()) =~= sa.last() + b);
        assert(segments(a + b) == p.update(p.len() - 1, p.last().push(b.last())));
        assert(segments(a + b) =~= sa.update(sa.len() - 1, sa.last() + b));
    }
}

/// Splitting joined lines gives the lines back.
pub proof fn lemma_segments_join(ls: Seq<Seq<char>>)
    requires
        ls.len() >= 1,
        forall|i: int| 0 <= i < ls.len() ==> !(#[trigger] ls[i]).contains('\n'),
    ensures
        segments(join(ls, seq!['\n'])) == ls,
    decreases ls.len(),
{
    if ls.len() == 1 {
        lemma_segments_append_plain(Seq::<char>::empty(), ls[0]);
        assert(Seq::<char>::empty() + ls[0] =~= ls[0]);
        assert(segments(Seq::<char>::empty()) == seq![Seq::<char>::empty()]);
        assert(Seq::<char>::empty() + ls[0] =~= ls[0]);
        assert(seq![Seq::<char>::empty()].update(0, Seq::<char>::empty() + ls[0]) =~= ls);
    } else {
        let d = ls.drop_last();
        lemma_segments_join(d);
        let x = join(d, seq!['\n']) + seq!['\n'];
        assert(x.drop_last() =~= join(d, seq!['\n']));
        assert(segments(x) == d.push(Seq::<char>::empty()));
        assert(!ls.last().contains('\n'));
        lemma_segments_append_plain(x, ls.last());
        assert(Seq::<char>::empty() + ls.last() =~= ls.last());
        assert(d.push(Seq::<char>::empty()).update(d.len() as int, Seq::<char>::empty() + ls.last()) =~= ls);
    }
}

/// Joining lines with newlines and ending with one more newline reads back as the
/// same lines, each without one trailing carriage return.
pub proof fn lemma_lines_join(ls: Seq<Seq<char>>)
    requires
        ls.len() >= 1,
        forall|i: int| 0 <= i < ls.len() ==> !(#[trigger] ls[i]).contains('\n'),
    ensures
        lines(join(ls, seq!['\n']) + seq!['\n']) == strip_crs(ls),
{
    lemma_segments_join(ls);
    let x = join(ls, seq!['\n']) + seq!['\n'];
    assert(x.drop_last() =~= join(ls, seq!['\n']));
    assert(segments(x) == ls.push(Seq::<char>::empty()));
    assert(segments(x).drop_last() =~= ls);
}

/// No line holds a newline.
pub proof fn lemma_lines_no_newline(s: Seq<char>)
    ensures
        forall|i: int| 0 <= i < lines(s).len() ==> !(#[trigger] lines(s)[i]).contains('\n'),
{
    lemma_segments_no_newline(s);
    lemma_segments_nonempty(s);
    let segs = segments(s);
    assert forall|i: int| 0 <= i < lines(s).len() implies !(#[trigger] lines(s)[i]).contains(
        '\n',
    ) by {
        if i < segs.len() - 1 {
            let l = segs[i];
            assert(lines(s)[i] == strip_cr(l));
            if strip_cr(l).contains('\n') {
                let j = choose|j: int| 0 <= j < strip_cr(l).len() && strip_cr(l)[j] == '\n';
                assert(l[j] == '\n');
            }
        } else {
            assert(lines(s)[i] == segs[segs.len() - 1]);
        }
    }
}

/// Splitting text that ends at a line break splits its two parts apart.
pub proof fn lemma_segments_concat(a: Seq<char>, b: Seq<char>)
    requires
        segments(a).last().len() == 0,
    ensures
        segments(a + b) == segments(a).drop_last() + segments(b),
    decreases b.len(),
{
    lemma_segments_nonempty(a);
    if b.len() == 0 {
        assert(a + b =~= a);
        assert(segments(a).last() =~= Seq::<char>::empty());
        assert(segments(a) =~= segments(a).drop_last() + seq![Seq::<char>::empty()]);
    } else {
        let b1 = b.drop_last();
        lemma_segments_concat(a, b1);
        lemma_segments_nonempty(b1);
        assert((a + b).drop_last() =~= a + b1);
        assert((a + b).last() == b.last());
        let d = segments(a).drop_last();
        let sb1 = segments(b1);
        if b.last() == '\n' {
            assert((d + sb1).push(Seq::<char>::empty()) =~= d + sb1.push(Seq::<char>::empty()));
        } else {
            assert((d + sb1).update((d + sb1).len() - 1, (d + sb1).last().push(b.last())) =~= d
                + sb1.update(sb1.len() - 1, sb1.last().push(b.last())));
        }
    }
}

/// The lines of text that ends at a line break, followed by more text, are the lines
/// of the first part followed by those of the second.
pub proof fn lemma_lines_concat(a: Seq<char>, b: Seq<char>)
    requires
        a.len() == 0 || a.last() == '\n',
    ensures
        lines(a + b) == lines(a) + lines(b),
{
    if a.len() > 0 {
        assert(segments(a) == segments(a.drop_last()).push(Seq::<char>::empty()));
    }
    lemma_segments_concat(a, b);
    lemma_segments_nonempty(a);
    lemma_segments_nonempty(b);
    let d = segments(a).drop_last();
    let sb = segments(b);
    assert((d + sb).drop_last() =~= d + sb.drop_last());
    assert(strip_crs(d + sb.drop_last()) =~= strip_crs(d) + strip_crs(sb.drop_last()));
    assert((d + sb).last() == sb.last());
    if sb.last().len() != 0 {
        assert((strip_crs(d) + strip_crs(sb.drop_last())).push(sb.last()) =~= strip_crs(d) + strip_crs(sb.drop_last()).push(sb.last()));
    }
}

/// Each word is non-empty and free of whitespace.
pub proof fn lemma_words_are_words(s: Seq<char>)
    ensures
        forall|i: int| 0 <= i < words(s).len() ==> is_word(#[trigger] words(s)[i]),
        s.len() > 0 && !is_ws(s.last()) ==> words(s).len() > 0,
    decreases s.len(),
{
    if s.len() > 0 {
        let p = s.drop_last();
        lemma_words_are_words(p);
        let c = s.last();
        if !is_ws(c) && s.len() >= 2 && !is_ws(s[s.len() - 2]) {
            assert(p.last() == s[s.len() - 2]);
            let w = words(p);
            let l = w.last().push(c);
            assert(is_word(w[w.len() - 1]));
            assert forall|j: int| 0 <= j < l.len() implies !is_ws(#[trigger] l[j]) by {
                if j < l.len() - 1 {
                    assert(l[j] == w[w.len() - 1][j]);
                }
            }
        } else if !is_ws(c) {
            assert(is_word(seq![c])) by {
                assert forall|j: int| 0 <= j < seq![c].len() implies !is_ws(#[trigger] seq![c][j]) by {
                    assert(seq![c][j] == c);
                }
            }
        }
    }
}

/// A trailing space adds no word.
pub proof fn lemma_words_append_space(a: Seq<char>)
    ensures
        words(a + seq![' ']) == words(a),
{
    let x = a + seq![' '];
    assert(x.drop_last() =~= a);
    assert(x.last() == ' ');
}

/// A word after whitespace (or at the start) becomes one more word.
pub proof fn lemma_words_append_word(a: Seq<char>, b: Seq<char>)
    requires
        is_word(b),
        a.len() == 0 || is_ws(a.last()),
    ensures
        words(a + b) == words(a).push(b),
    decreases b.len(),
{
    let x = a + b;
    assert(x.drop_last() =~= a + b.drop_last());
    assert(x.last() == b.last());
    assert(!is_ws(b[b.len() - 1]));
    if b.len() == 1 {
        assert(a + b.drop_last() =~= a);
        if x.len() >= 2 {
            assert(x[x.len() - 2] == a.last());
        }
        assert(seq![b.last()] =~= b);
    } else {
        let b1 = b.drop_last();
        assert(is_word(b1)) by {
            assert forall|j: int| 0 <= j < b1.len() implies !is_ws(#[trigger] b1[j]) by {
                assert(b1[j] == b[j]);
            }
        }
        lemma_words_append_word(a, b1);
        assert(x[x.len() - 2] == b[b.len() - 2]);
        assert(b1.push(b.last()) =~= b);
        assert(words(a).push(b1).last() == b1);
        assert(words(a).push(b1).update(words(a).len() as int, b1.push(b.last())) =~= words(
            a,
        ).push(b));
    }
}

/// Splitting words joined by single spaces gives the words back.
pub proof fn lemma_words_join(ws: Seq<Seq<char>>)
    requires
        forall|i: int| 0 <= i < ws.len() ==> is_word(#[trigger] ws[i]),
    ensures
        words(join(ws, seq![' '])) == ws,
    decreases ws.len(),
{
    if ws.len() == 0 {
    } else if ws.len() == 1 {
        lemma_words_append_word(Seq::<char>::empty(), ws[0]);
        assert(Seq::<char>::empty() + ws[0] =~= ws[0]);
        assert(seq![ws[0]] =~= ws);
    } else {
        let d = ws.drop_last();
        lemma_words_join(d);
        let x = join(d, seq![' ']);
        lemma_words_append_space(x);
        assert(is_word(ws[ws.len() - 1]));
        lemma_words_append_word(x + seq![' '], ws.last());
        assert(d.push(ws.last()) =~= ws);
    }
}

/// Removing a trailing carriage return keeps a line that does not start with `p`
/// from starting with it.
pub proof fn lemma_strip_cr_prefix(l: Seq<char>, p: Seq<char>)
    requires
        !has_prefix(l, p),
    ensures
        !has_prefix(strip_cr(l), p),
{
    if has_prefix(strip_cr(l), p) && strip_cr(l) != l {
        assert(l.take(p.len() as int) =~= strip_cr(l).take(p.len() as int));
    }
}

/// Trimming the start of joined text trims the first part, or, where that is all
/// whitespace, the second.
pub proof fn lemma_trim_start_concat(a: Seq<char>, b: Seq<char>)
    ensures
        trim_start(a + b) == if trim_start(a).len() > 0 {
            trim_start(a) + b
        } else {
            trim_start(b)
        },
    decreases a.len(),
{
    if a.len() == 0 {
        assert(a + b =~= b);
    } else if is_ws(a[0]) {
        assert((a + b).drop_first() =~= a.drop_first() + b);
        assert((a + b)[0] == a[0]);
        lemma_trim_start_concat(a.drop_first(), b);
    } else {
        assert((a + b)[0] == a[0]);
    }
}

/// Trimming the end of joined text trims the last part, or, where that is all
/// whitespace, the first.
pub proof fn lemma_trim_end_concat(a: Seq<char>, b: Seq<char>)
    ensures
        trim_end(a + b) == if trim_end(b).len() > 0 {
            a + trim_end(b)
        } else {
            trim_end(a)
        },
    decreases b.len(),
{
    if b.len() == 0 {
        assert(a + b =~= a);
    } else if is_ws(b.last()) {
        assert((a + b).drop_last() =~= a + b.drop_last());
        assert((a + b).last() == b.last());
        lemma_trim_end_concat(a, b.drop_last());
    } else {
        assert((a + b).last() == b.last());
    }
}

/// Text trimmed at its start starts with no whitespace.
pub proof fn lemma_trim_start_fixed(s: Seq<char>)
    ensures
        trim_start(trim_start(s)) == trim_start(s),
        trim_start(s).len() > 0 ==> !is_ws(trim_start(s)[0]),
    decreases s.len(),
{
    if s.len() > 0 && is_ws(s[0]) {
        lemma_trim_start_fixed(s.drop_first());
    }
}

/// Text trimmed at its end ends with no whitespace.
pub proof fn lemma_trim_end_fixed(s: Seq<char>)
    ensures
        trim_end(trim_end(s)) == trim_end(s),
    decreases s.len(),
{
    if s.len() > 0 && is_ws(s.last()) {
        lemma_trim_end_fixed(s.drop_last());
    }
}

/// Trimming the start and the end can be done in either order.
pub proof fn lemma_trim_commutes(s: Seq<char>)
    ensures
        trim_start(trim_end(s)) == trim_end(trim_start(s)),
    decreases s.len(),
{
    if s.len() > 0 {
        let d = s.drop_last();
        let c = s.last();
        assert(d + seq![c] =~= s);
        lemma_trim_start_concat(d, seq![c]);
        if is_ws(c) {
            lemma_trim_commutes(d);
            if trim_start(d).len() > 0 {
                let t = trim_start(d);
                assert((t + seq![c]).drop_last() =~= t);
                assert((t + seq![c]).last() == c);
            } else {
                assert(seq![c].drop_first() =~= Seq::<char>::empty());
                assert(trim_start(seq![c]) == trim_start(Seq::<char>::empty()));
                lemma_trim_start_fixed(d);
                assert(trim_end(d).len() == 0 || trim_start(trim_end(d)).len() == 0) by {
                    lemma_trim_commutes(d);
                }
            }
        } else {
            assert(seq![c][0] == c);
            assert(trim_start(seq![c]) == seq![c]);
            let t = trim_start(s);
            assert(t.len() > 0);
            if trim_start(d).len() > 0 {
                assert(t == trim_start(d) + seq![c]);
            } else {
                assert(t == seq![c]);
            }
            assert(t.last() == c);
        }
    }
}

/// Trimming the start keeps only characters of the text.
pub proof fn lemma_trim_start_within(s: Seq<char>, c: char)
    ensures
        trim_start(s).contains(c) ==> s.contains(c),
    decreases s.len(),
{
    if s.len() > 0 && is_ws(s[0]) {
        lemma_trim_start_within(s.drop_first(), c);
        if trim_start(s).contains(c) {
            let j = choose|j: int| 0 <= j < s.drop_first().len() && s.drop_first()[j] == c;
            assert(s[j + 1] == c);
        }
    }
}

/// The first `c` in text that starts with a part lacking `c`, followed by `c`, stands
/// right after that part.
pub proof fn lemma_find_char_after(a: Seq<char>, b: Seq<char>, c: char)
    requires
        !a.contains(c),
        b.len() > 0,
        b[0] == c,
    ensures
        find_char(a + b, c) == a.len(),
    decreases a.len(),
{
    if a.len() == 0 {
        assert(a + b =~= b);
    } else {
        assert((a + b)[0] == a[0]);
        assert(a[0] != c);
        assert((a + b).drop_first() =~= a.drop_first() + b);
        assert(!a.drop_first().contains(c)) by {
            if a.drop_first().contains(c) {
                let j = choose|j: int| 0 <= j < a.drop_first().len() && a.drop_first()[j] == c;
                assert(a[j + 1] == c);
            }
        }
        lemma_find_char_after(a.drop_first(), b, c);
    }
}

} // verus!
