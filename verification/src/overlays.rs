//! The device-tree overlay list of an Armbian boot environment file
//! (`armbianEnv.txt`): the `overlays=` line and how new overlays join it.
use vstd::prelude::*;
use crate::text::{
    chars_from, chars_of, has_prefix, is_word, is_ws, join, join_with, lemma_lines_join,
    lemma_lines_no_newline, lemma_strip_cr_prefix, lemma_words_are_words, lemma_words_join, lines,
    lines_of, same_chars, starts_with_chars, string_of, strip_cr, strip_crs, views, words,
    words_of,
};

verus! {

/// The key that starts the overlay line: `overlays=`.
pub open spec fn overlays_key() -> Seq<char> {
    seq!['o', 'v', 'e', 'r', 'l', 'a', 'y', 's', '=']
}

/// The position of the first line that starts with `overlays=`, or the number of lines
/// where none does.
pub open spec fn find_overlay_line(ls: Seq<Seq<char>>) -> int
    decreases ls.len(),
{
    if ls.len() == 0 {
        0
    } else if has_prefix(ls[0], overlays_key()) {
        0
    } else {
        1 + find_overlay_line(ls.drop_first())
    }
}

/// The items of `s` in order, each kept only where it first occurs.
pub open spec fn dedup(s: Seq<Seq<char>>) -> Seq<Seq<char>>
    decreases s.len(),
{
    if s.len() == 0 {
        seq![]
    } else {
        let d = dedup(s.drop_last());
        if d.contains(s.last()) {
            d
        } else {
            d.push(s.last())
        }
    }
}

/// The overlay line that lists `overlays`, separated by single spaces.
pub open spec fn overlay_line(overlays: Seq<Seq<char>>) -> Seq<char> {
    overlays_key() + join(overlays, seq![' '])
}

/// The lines of an environment file after adding `new` overlays: the first overlay line
/// lists its own overlays and then the new ones, each once; where there is no overlay
/// line, one that lists the new overlays as given is appended. Other lines stay.
pub open spec fn with_overlays(ls: Seq<Seq<char>>, new: Seq<Seq<char>>) -> Seq<Seq<char>> {
    let k = find_overlay_line(ls);
    if k < ls.len() {
        ls.update(k, overlay_line(dedup(words(ls[k].skip(overlays_key().len() as int)) + new)))
    } else {
        ls.push(overlay_line(new))
    }
}

/// The text of an environment file after adding `new` overlays: its lines, changed as
/// `with_overlays` says, each ended by a newline.
pub open spec fn overlays_updated(content: Seq<char>, new: Seq<Seq<char>>) -> Seq<char> {
    join(with_overlays(lines(content), new), seq!['\n']) + seq!['\n']
}

/// The overlays that the first overlay line of `content` lists, if it has one.
pub open spec fn overlay_tokens(content: Seq<char>) -> Option<Seq<Seq<char>>> {
    let ls = lines(content);
    let k = find_overlay_line(ls);
    if k < ls.len() {
        Some(words(ls[k].skip(overlays_key().len() as int)))
    } else {
        None
    }
}

/// The overlays that the overlay line lists after `new` is added to `content`.
pub open spec fn merged_overlays(content: Seq<char>, new: Seq<Seq<char>>) -> Seq<Seq<char>> {
    match overlay_tokens(content) {
        Some(t) => dedup(t + new),
        None => new,
    }
}

/// The contents of a list of string slices.
pub open spec fn str_views(v: Seq<&str>) -> Seq<Seq<char>> {
    v.map_values(|x: &str| x@)
}

/// A copy of a character buffer.
fn copy_chars(v: &Vec<char>) -> (r: Vec<char>)
    ensures
        r@ == v@,
{
    let mut r: Vec<char> = Vec::new();
    let n = v.len();
    for i in 0..n
        invariant
            n == v.len(),
            r@ == v@.take(i as int),
    {
        r.push(v[i]);
        assert(r@ =~= v@.take(i + 1));
    }
    assert(v@.take(n as int) =~= v@);
    r
}

/// Whether `items` holds `x`.
fn holds(items: &Vec<Vec<char>>, x: &Vec<char>) -> (r: bool)
    ensures
        r == views(items@).contains(x@),
{
    let n = items.len();
    for i in 0..n
        invariant
            n == items.len(),
            forall|j: int| 0 <= j < i ==> views(items@)[j] != x@,
    {
        if same_chars(&items[i], x) {
            assert(views(items@)[i as int] == x@);
            return true;
        }
    }
    false
}

/// The items of `s` in order, each kept only where it first occurs.
fn dedup_of(s: &Vec<Vec<char>>) -> (r: Vec<Vec<char>>)
    ensures
        views(r@) == dedup(views(s@)),
{
    let mut r: Vec<Vec<char>> = Vec::new();
    let n = s.len();
    for i in 0..n
        invariant
            n == s.len(),
            views(r@) == dedup(views(s@).take(i as int)),
    {
        let ghost pre = views(s@).take(i as int);
        let ghost now = views(s@).take(i + 1);
        assert(now.drop_last() =~= pre);
        assert(now.last() == s@[i as int]@);
        if !holds(&r, &s[i]) {
            let ghost before = views(r@);
            r.push(copy_chars(&s[i]));
            assert(views(r@) =~= before.push(s@[i as int]@));
        }
    }
    assert(views(s@).take(n as int) =~= views(s@));
    r
}

/// The overlay line that lists `overlays`.
fn make_overlay_line(key: &Vec<char>, overlays: &Vec<Vec<char>>) -> (r: Vec<char>)
    requires
        key@ == overlays_key(),
    ensures
        r@ == overlay_line(views(overlays@)),
{
    let mut r = copy_chars(key);
    let listed = join_with(overlays, ' ');
    let n = listed.len();
    for i in 0..n
        invariant
            n == listed.len(),
            r@ == key@ + listed@.take(i as int),
    {
        r.push(listed[i]);
        assert(r@ =~= key@ + listed@.take(i + 1));
    }
    assert(listed@.take(n as int) =~= listed@);
    r
}

/// The text of an Armbian environment file after adding `new_overlays` to its overlay
/// line: the first line that starts with `overlays=` keeps the overlays it lists and
/// gets each new one that it lacks, in order and each once; where no line starts with
/// `overlays=`, a line `overlays=` with the new overlays joined by spaces is appended.
/// Every other line stays as it was, and every line ends with a newline.
pub fn update_overlays(content: &str, new_overlays: &[&str]) -> (r: String)
    ensures
        r@ == overlays_updated(content@, str_views(new_overlays@)),
{
    let chars = chars_of(content);
    let mut ls = lines_of(&chars);
    let mut new: Vec<Vec<char>> = Vec::new();
    let m = new_overlays.len();
    for i in 0..m
        invariant
            m == new_overlays@.len(),
            views(new@) == str_views(new_overlays@).take(i as int),
    {
        let ghost before = views(new@);
        let item: &str = new_overlays[i];
        new.push(chars_of(item));
        assert(views(new@) =~= before.push(item@));
        assert(str_views(new_overlays@).take(i + 1) =~= str_views(new_overlays@).take(
            i as int,
        ).push(new_overlays@[i as int]@));
        assert(views(new@) =~= str_views(new_overlays@).take(i + 1));
    }
    assert(str_views(new_overlays@).take(m as int) =~= str_views(new_overlays@));
    let key: Vec<char> = vec!['o', 'v', 'e', 'r', 'l', 'a', 'y', 's', '='];
    assert(key@ =~= overlays_key());
    let ghost ls0 = views(ls@);
    let n = ls.len();
    let mut k: usize = 0;
    assert(ls0.skip(0) =~= ls0);
    while k < n && !starts_with_chars(&ls[k], &key)
        invariant
            n == ls.len(),
            ls0 == views(ls@),
            k <= n,
            key@ == overlays_key(),
            find_overlay_line(ls0) == k + find_overlay_line(ls0.skip(k as int)),
        decreases n - k,
    {
        assert(ls0.skip(k as int)[0] == ls0[k as int]);
        assert(ls0.skip(k as int).drop_first() =~= ls0.skip(k + 1));
        k = k + 1;
    }
    if k < n {
        assert(ls0.skip(k as int)[0] == ls0[k as int]);
        assert(find_overlay_line(ls0) == k);
        let rest = chars_from(&ls[k], 9);
        let mut all = words_of(&rest);
        let c = all.len();
        for i in 0..m
            invariant
                m == new@.len(),
                c <= all.len(),
                views(all@) == words(rest@) + views(new@).take(i as int),
        {
            let ghost before = views(all@);
            all.push(copy_chars(&new[i]));
            assert(views(all@) =~= before.push(new@[i as int]@));
            assert(views(new@).take(i + 1) =~= views(new@).take(i as int).push(new@[i as int]@));
            assert(views(all@) =~= words(rest@) + views(new@).take(i + 1));
        }
        assert(views(new@).take(m as int) =~= views(new@));
        let kept = dedup_of(&all);
        let line = make_overlay_line(&key, &kept);
        ls.set(k, line);
        assert(views(ls@) =~= with_overlays(ls0, views(new@)));
    } else {
        assert(ls0.skip(k as int).len() == 0);
        let line = make_overlay_line(&key, &new);
        ls.push(line);
        assert(views(ls@) =~= with_overlays(ls0, views(new@)));
    }
    let mut out = join_with(&ls, '\n');
    out.push('\n');
    string_of(out.as_slice())
}


/// The overlay line search stops at the first line that starts with `overlays=`.
pub proof fn lemma_find_overlay_line_is_first(ls: Seq<Seq<char>>)
    ensures
        0 <= find_overlay_line(ls) <= ls.len(),
        find_overlay_line(ls) < ls.len() ==> has_prefix(ls[find_overlay_line(ls)], overlays_key()),
        forall|j: int| 0 <= j < find_overlay_line(ls) ==> !has_prefix(#[trigger] ls[j], overlays_key()),
    decreases ls.len(),
{
    if ls.len() > 0 && !has_prefix(ls[0], overlays_key()) {
        lemma_find_overlay_line_is_first(ls.drop_first());
        assert forall|j: int| 0 <= j < find_overlay_line(ls) implies !has_prefix(#[trigger] ls[j], overlays_key()) by {
            if j > 0 {
                assert(ls[j] == ls.drop_first()[j - 1]);
            }
        }
    }
}

/// A line that starts with `overlays=` after lines that do not is where the search stops.
pub proof fn lemma_find_overlay_line_at(ls: Seq<Seq<char>>, k: int)
    requires
        0 <= k <= ls.len(),
        k < ls.len() ==> has_prefix(ls[k], overlays_key()),
        forall|j: int| 0 <= j < k ==> !has_prefix(#[trigger] ls[j], overlays_key()),
    ensures
        find_overlay_line(ls) == k,
    decreases ls.len(),
{
    if ls.len() > 0 && k > 0 {
        assert(!has_prefix(ls[0], overlays_key()));
        assert forall|j: int| 0 <= j < k - 1 implies !has_prefix(#[trigger] ls.drop_first()[j], overlays_key()) by {
            assert(ls.drop_first()[j] == ls[j + 1]);
        }
        lemma_find_overlay_line_at(ls.drop_first(), k - 1);
    }
}

/// Removing repeats keeps exactly the items that occur.
pub proof fn lemma_dedup_contains(s: Seq<Seq<char>>)
    ensures
        forall|x: Seq<char>| dedup(s).contains(x) <==> s.contains(x),
    decreases s.len(),
{
    if s.len() > 0 {
        let p = s.drop_last();
        lemma_dedup_contains(p);
        assert(s =~= p.push(s.last()));
        assert forall|x: Seq<char>| dedup(s).contains(x) <==> s.contains(x) by {
            if s.contains(x) && x != s.last() {
                let j = choose|j: int| 0 <= j < s.len() && s[j] == x;
                assert(p[j] == x);
            }
            if p.contains(x) {
                let j = choose|j: int| 0 <= j < p.len() && p[j] == x;
                assert(s[j] == x);
            }
            if !dedup(p).contains(s.last()) {
                assert(dedup(s) == dedup(p).push(s.last()));
                if dedup(s).contains(x) && x != s.last() {
                    let j = choose|j: int| 0 <= j < dedup(s).len() && dedup(s)[j] == x;
                    assert(dedup(p)[j] == x);
                }
                if dedup(p).contains(x) {
                    let j = choose|j: int| 0 <= j < dedup(p).len() && dedup(p)[j] == x;
                    assert(dedup(s)[j] == x);
                }
                assert(dedup(s)[dedup(p).len() as int] == s.last());
            }
            assert(s[s.len() - 1] == s.last());
        }
    }
}

/// Removing repeats leaves no repeats.
pub proof fn lemma_dedup_distinct(s: Seq<Seq<char>>)
    ensures
        dedup(s).no_duplicates(),
    decreases s.len(),
{
    if s.len() > 0 {
        let p = s.drop_last();
        lemma_dedup_distinct(p);
        let d = dedup(p);
        if !d.contains(s.last()) {
            assert forall|i: int, j: int| 0 <= i < j < d.push(s.last()).len() implies d.push(s.last())[i] != d.push(s.last())[j] by {
                if j == d.len() {
                    assert(d[i] == d.push(s.last())[i]);
                }
            }
        }
    }
}

/// A list without repeats is its own repeat-free form.
pub proof fn lemma_dedup_fixed(u: Seq<Seq<char>>)
    requires
        u.no_duplicates(),
    ensures
        dedup(u) == u,
    decreases u.len(),
{
    if u.len() > 0 {
        let p = u.drop_last();
        assert(p.no_duplicates()) by {
            assert forall|i: int, j: int| 0 <= i < p.len() && 0 <= j < p.len() && i != j implies p[i] != p[j] by {
                assert(p[i] == u[i] && p[j] == u[j]);
            }
        }
        lemma_dedup_fixed(p);
        assert(!p.contains(u.last())) by {
            if p.contains(u.last()) {
                let j = choose|j: int| 0 <= j < p.len() && p[j] == u.last();
                assert(u[j] == u[u.len() - 1]);
            }
        }
        assert(p.push(u.last()) =~= u);
    }
}

/// Items that are already in a repeat-free list add nothing to it.
pub proof fn lemma_dedup_absorb(u: Seq<Seq<char>>, y: Seq<Seq<char>>)
    requires
        u.no_duplicates(),
        forall|i: int| 0 <= i < y.len() ==> u.contains(#[trigger] y[i]),
    ensures
        dedup(u + y) == u,
    decreases y.len(),
{
    if y.len() == 0 {
        assert(u + y =~= u);
        lemma_dedup_fixed(u);
    } else {
        let y1 = y.drop_last();
        lemma_dedup_absorb(u, y1);
        assert((u + y).drop_last() =~= u + y1);
        assert((u + y).last() == y[y.len() - 1]);
    }
}

/// Joined pieces that lack a character, with a separator that lacks it, lack it too.
pub proof fn lemma_join_lacks(parts: Seq<Seq<char>>, sep: Seq<char>, c: char)
    requires
        forall|i: int| 0 <= i < parts.len() ==> !(#[trigger] parts[i]).contains(c),
        !sep.contains(c),
    ensures
        !join(parts, sep).contains(c),
    decreases parts.len(),
{
    if parts.len() > 1 {
        let d = parts.drop_last();
        lemma_join_lacks(d, sep, c);
        let x = join(d, sep) + sep + parts.last();
        assert(!parts[parts.len() - 1].contains(c));
        if x.contains(c) {
            let j = choose|j: int| 0 <= j < x.len() && x[j] == c;
            let a = join(d, sep);
            if j < a.len() {
                assert(a[j] == c);
            } else if j < a.len() + sep.len() {
                assert(sep[j - a.len()] == c);
            } else {
                assert(parts.last()[j - a.len() - sep.len()] == c);
            }
        }
    } else if parts.len() == 1 {
        assert(!parts[0].contains(c));
    }
}

/// What an overlay line built from words looks like when it is read back.
pub proof fn lemma_overlay_line_reads_back(u: Seq<Seq<char>>)
    requires
        forall|i: int| 0 <= i < u.len() ==> is_word(#[trigger] u[i]),
    ensures
        !overlay_line(u).contains('\n'),
        strip_cr(overlay_line(u)) == overlay_line(u),
        has_prefix(overlay_line(u), overlays_key()),
        words(overlay_line(u).skip(overlays_key().len() as int)) == u,
{
    let key = overlays_key();
    let body = join(u, seq![' ']);
    let line = overlay_line(u);
    assert forall|i: int| 0 <= i < u.len() implies !(#[trigger] u[i]).contains('\n') by {
        assert(is_word(u[i]));
        if u[i].contains('\n') {
            let j = choose|j: int| 0 <= j < u[i].len() && u[i][j] == '\n';
            assert(is_ws(u[i][j]));
        }
    }
    assert(!seq![' '].contains('\n')) by {
        if seq![' '].contains('\n') {
            let j = choose|j: int| 0 <= j < seq![' '].len() && seq![' '][j] == '\n';
            assert(seq![' '][j] == ' ');
        }
    }
    lemma_join_lacks(u, seq![' '], '\n');
    if line.contains('\n') {
        let j = choose|j: int| 0 <= j < line.len() && line[j] == '\n';
        if j < key.len() {
            assert(key[j] == '\n');
        } else {
            assert(body[j - key.len()] == '\n');
        }
    }
    assert(line.take(key.len() as int) =~= key);
    assert(line.skip(key.len() as int) =~= body);
    lemma_words_join(u);
    assert(is_ws('\r'));
    if u.len() > 0 {
        assert(body.len() > 0 && !is_ws(body.last())) by {
            lemma_words_join_last(u);
        }
        assert(line.last() == body.last());
    } else {
        assert(line.last() == '=');
    }
}

/// Words joined by spaces end with the last character of the last word.
proof fn lemma_words_join_last(u: Seq<Seq<char>>)
    requires
        u.len() > 0,
        forall|i: int| 0 <= i < u.len() ==> is_word(#[trigger] u[i]),
    ensures
        join(u, seq![' ']).len() > 0,
        !is_ws(join(u, seq![' ']).last()),
{
    assert(is_word(u[u.len() - 1]));
    let b = join(u, seq![' ']);
    let l = u.last();
    assert(!is_ws(l[l.len() - 1]));
    if u.len() == 1 {
        assert(b == u[0]);
    } else {
        let a = join(u.drop_last(), seq![' ']) + seq![' '];
        assert(b == a + l);
        assert(b.last() == l.last());
    }
}

/// The repeat-free list of some words followed by more words holds only words.
proof fn lemma_dedup_words(t: Seq<Seq<char>>, new: Seq<Seq<char>>)
    requires
        forall|i: int| 0 <= i < t.len() ==> is_word(#[trigger] t[i]),
        forall|i: int| 0 <= i < new.len() ==> is_word(#[trigger] new[i]),
    ensures
        forall|i: int| 0 <= i < dedup(t + new).len() ==> is_word(#[trigger] dedup(t + new)[i]),
{
    lemma_dedup_contains(t + new);
    let d = dedup(t + new);
    assert forall|i: int| 0 <= i < d.len() implies is_word(#[trigger] d[i]) by {
        assert(d.contains(d[i]));
        assert((t + new).contains(d[i]));
        let j = choose|j: int| 0 <= j < (t + new).len() && (t + new)[j] == d[i];
        if j < t.len() {
            assert(is_word(t[j]));
        } else {
            assert(is_word(new[j - t.len()]));
        }
    }
}

/// The overlay line of an updated file, and where it stands.
proof fn lemma_updated_lines(content: Seq<char>, new: Seq<Seq<char>>)
    requires
        forall|i: int| 0 <= i < new.len() ==> is_word(#[trigger] new[i]),
    ensures
        with_overlays(lines(content), new).len() >= 1,
        0 <= find_overlay_line(lines(content)) < with_overlays(lines(content), new).len(),
        with_overlays(lines(content), new)[find_overlay_line(lines(content))] == overlay_line(
            merged_overlays(content, new),
        ),
        forall|i: int|
            0 <= i < merged_overlays(content, new).len() ==> is_word(
                #[trigger] merged_overlays(content, new)[i],
            ),
        forall|i: int|
            0 <= i < with_overlays(lines(content), new).len() ==> !(#[trigger] with_overlays(
                lines(content),
                new,
            )[i]).contains('\n'),
        forall|j: int|
            0 <= j < find_overlay_line(lines(content)) ==> !has_prefix(
                #[trigger] with_overlays(lines(content), new)[j],
                overlays_key(),
            ),
        forall|j: int|
            0 <= j < with_overlays(lines(content), new).len() && j != find_overlay_line(
                lines(content),
            ) ==> #[trigger] with_overlays(lines(content), new)[j] == lines(content)[j],
        lines(overlays_updated(content, new)) == strip_crs(with_overlays(lines(content), new)),
{
    let ls = lines(content);
    let out = with_overlays(ls, new);
    let k = find_overlay_line(ls);
    lemma_find_overlay_line_is_first(ls);
    lemma_lines_no_newline(content);
    let u = merged_overlays(content, new);
    if k < ls.len() {
        let t = words(ls[k].skip(overlays_key().len() as int));
        lemma_words_are_words(ls[k].skip(overlays_key().len() as int));
        lemma_dedup_words(t, new);
    }
    lemma_overlay_line_reads_back(u);
    lemma_lines_join(out);
}

/// Adding overlays leaves a file whose overlay line lists the overlays it listed
/// before followed by each new one it lacked, each once; in a file that had no overlay
/// line, the new overlays as given. (The new overlays are non-empty and hold no
/// whitespace, as the names of device-tree overlays do.)
pub proof fn lemma_update_overlays_lists(content: Seq<char>, new: Seq<Seq<char>>)
    requires
        forall|i: int| 0 <= i < new.len() ==> is_word(#[trigger] new[i]),
    ensures
        overlay_tokens(overlays_updated(content, new)) == Some(merged_overlays(content, new)),
{
    let ls = lines(content);
    let out = with_overlays(ls, new);
    let k = find_overlay_line(ls);
    let u = merged_overlays(content, new);
    lemma_updated_lines(content, new);
    lemma_overlay_line_reads_back(u);
    let back = strip_crs(out);
    assert(back[k] == overlay_line(u));
    assert forall|j: int| 0 <= j < k implies !has_prefix(#[trigger] back[j], overlays_key()) by {
        lemma_strip_cr_prefix(out[j], overlays_key());
    }
    lemma_find_overlay_line_at(back, k);
}

/// Adding the same overlays a second time changes nothing, for new overlays that are
/// words, distinct where the file had no overlay line, and a file none of whose other
/// lines ends with a carriage return.
pub proof fn lemma_update_overlays_idempotent(content: Seq<char>, new: Seq<Seq<char>>)
    requires
        forall|i: int| 0 <= i < new.len() ==> is_word(#[trigger] new[i]),
        overlay_tokens(content) is None ==> new.no_duplicates(),
        forall|i: int|
            0 <= i < lines(content).len() && i != find_overlay_line(lines(content)) ==> strip_cr(
                #[trigger] lines(content)[i],
            ) == lines(content)[i],
    ensures
        overlays_updated(overlays_updated(content, new), new) == overlays_updated(content, new),
{
    let ls = lines(content);
    let out = with_overlays(ls, new);
    let k = find_overlay_line(ls);
    let idx = k;
    let u = merged_overlays(content, new);
    let once = overlays_updated(content, new);
    lemma_updated_lines(content, new);
    lemma_overlay_line_reads_back(u);
    assert(strip_crs(out) =~= out) by {
        assert forall|j: int| 0 <= j < out.len() implies strip_crs(out)[j] == out[j] by {
            if j != idx {
                assert(out[j] == ls[j]);
                assert(strip_cr(ls[j]) == ls[j]);
            }
        }
    }
    assert(lines(once) == out);
    assert forall|j: int| 0 <= j < idx implies !has_prefix(#[trigger] out[j], overlays_key()) by {}
    lemma_find_overlay_line_at(out, idx);
    if k < ls.len() {
        let t = overlay_tokens(content)->0;
        lemma_dedup_distinct(t + new);
        lemma_dedup_contains(t + new);
        assert forall|i: int| 0 <= i < new.len() implies u.contains(#[trigger] new[i]) by {
            assert((t + new)[t.len() + i] == new[i]);
            assert((t + new).contains(new[i]));
        }
        lemma_dedup_absorb(u, new);
    } else {
        assert forall|i: int| 0 <= i < new.len() implies u.contains(#[trigger] new[i]) by {
            assert(u[i] == new[i]);
        }
        lemma_dedup_absorb(u, new);
    }
    assert(with_overlays(out, new) =~= out);
}

} // verus!
