//! The `key = value` settings file of the helper (`kiauh.cfg`).
use vstd::prelude::*;
use crate::text::{
    chars_before, chars_from, chars_of, find_char, find_char_in, is_ws, lemma_find_char_after,
    lemma_lines_concat, lemma_segments_append_plain, lemma_trim_commutes, lemma_trim_end_concat,
    lemma_trim_end_fixed, lemma_trim_start_concat, lemma_trim_start_fixed,
    lemma_trim_start_within, lines, lines_of, segments, string_of, strip_crs, trim, trim_chars,
    trim_end, trim_start, views,
};

verus! {

/// The setting that one line makes, if any: the line trimmed of whitespace, unless it is
/// empty or a `#` comment, split at its first `=` into a key and a value, each trimmed.
pub open spec fn line_setting(line: Seq<char>) -> Option<(Seq<char>, Seq<char>)> {
    let t = trim(line);
    if t.len() == 0 || t[0] == '#' {
        None
    } else {
        let i = find_char(t, '=');
        if i < t.len() {
            Some((trim(t.take(i)), trim(t.skip(i + 1))))
        } else {
            None
        }
    }
}

/// The settings that the lines make, each line after the ones before it, so that a
/// later line overrides an earlier one with the same key.
pub open spec fn settings_of_lines(ls: Seq<Seq<char>>) -> Map<Seq<char>, Seq<char>>
    decreases ls.len(),
{
    if ls.len() == 0 {
        Map::empty()
    } else {
        let m = settings_of_lines(ls.drop_last());
        match line_setting(ls.last()) {
            Some(kv) => m.insert(kv.0, kv.1),
            None => m,
        }
    }
}

/// The settings that a configuration text makes.
pub open spec fn parse_settings(content: Seq<char>) -> Map<Seq<char>, Seq<char>> {
    settings_of_lines(lines(content))
}

/// The map that a list of entries makes, each entry after the ones before it.
pub open spec fn entries_map(e: Seq<(Seq<char>, Seq<char>)>) -> Map<Seq<char>, Seq<char>>
    decreases e.len(),
{
    if e.len() == 0 {
        Map::empty()
    } else {
        entries_map(e.drop_last()).insert(e.last().0, e.last().1)
    }
}

/// No two entries have the same key.
pub open spec fn keys_distinct(e: Seq<(Seq<char>, Seq<char>)>) -> bool {
    forall|i: int, j: int| 0 <= i < e.len() && 0 <= j < e.len() && i != j ==> e[i].0 != e[j].0
}

/// The contents of a list of string pairs.
pub open spec fn pair_views(e: Seq<(String, String)>) -> Seq<(Seq<char>, Seq<char>)> {
    e.map_values(|p: (String, String)| (p.0@, p.1@))
}

/// The settings of the helper, read from its configuration file.
pub struct KiauhConfig {
    settings: Vec<(String, String)>,
}

impl View for KiauhConfig {
    type V = Map<Seq<char>, Seq<char>>;

    closed spec fn view(&self) -> Map<Seq<char>, Seq<char>> {
        entries_map(pair_views(self.settings@))
    }
}

/// The map of entries whose keys are distinct holds each entry.
pub proof fn lemma_entries_map_index(e: Seq<(Seq<char>, Seq<char>)>, i: int)
    requires
        keys_distinct(e),
        0 <= i < e.len(),
    ensures
        entries_map(e).contains_key(e[i].0),
        entries_map(e)[e[i].0] == e[i].1,
    decreases e.len(),
{
    if i < e.len() - 1 {
        let d = e.drop_last();
        assert(keys_distinct(d));
        assert(d[i] == e[i]);
        lemma_entries_map_index(d, i);
        assert(e.last() == e[e.len() - 1]);
    }
}

/// A key that no entry has is not in the map of the entries.
pub proof fn lemma_entries_map_absent(e: Seq<(Seq<char>, Seq<char>)>, k: Seq<char>)
    requires
        forall|i: int| 0 <= i < e.len() ==> (#[trigger] e[i]).0 != k,
    ensures
        !entries_map(e).contains_key(k),
    decreases e.len(),
{
    if e.len() > 0 {
        let d = e.drop_last();
        assert forall|i: int| 0 <= i < d.len() implies (#[trigger] d[i]).0 != k by {
            assert(d[i] == e[i]);
        }
        lemma_entries_map_absent(d, k);
        assert(e.last() == e[e.len() - 1]);
    }
}

/// Replacing the value of an entry is inserting it into the map.
pub proof fn lemma_entries_map_update(
    e: Seq<(Seq<char>, Seq<char>)>,
    i: int,
    k: Seq<char>,
    v: Seq<char>,
)
    requires
        keys_distinct(e),
        0 <= i < e.len(),
        e[i].0 == k,
    ensures
        entries_map(e.update(i, (k, v))) == entries_map(e).insert(k, v),
    decreases e.len(),
{
    let e2 = e.update(i, (k, v));
    let d = e.drop_last();
    assert(e2.drop_last() =~= if i == e.len() - 1 {
        d
    } else {
        d.update(i, (k, v))
    });
    if i == e.len() - 1 {
        assert(entries_map(e2) =~= entries_map(e).insert(k, v));
    } else {
        assert(keys_distinct(d));
        assert(d[i] == e[i]);
        lemma_entries_map_update(d, i, k, v);
        assert(e.last() == e[e.len() - 1]);
        assert(e.last().0 != k);
        assert(e2.last() == e.last());
        assert(entries_map(e2) =~= entries_map(e).insert(k, v));
    }
}

impl KiauhConfig {
    /// The entries have distinct keys.
    #[verifier::type_invariant]
    spec fn wf(&self) -> bool {
        keys_distinct(pair_views(self.settings@))
    }

    /// A configuration without settings.
    pub fn empty() -> (c: KiauhConfig)
        ensures
            c@ == Map::<Seq<char>, Seq<char>>::empty(),
    {
        let c = KiauhConfig { settings: Vec::new() };
        assert(pair_views(c.settings@) =~= Seq::<(Seq<char>, Seq<char>)>::empty());
        c
    }

    /// Sets `key` to `value`, replacing an earlier value of `key`.
    pub fn insert(&mut self, key: String, value: String)
        ensures
            final(self)@ == old(self)@.insert(key@, value@),
    {
        proof {
            use_type_invariant(&*self);
        }
        let mut settings: Vec<(String, String)> = Vec::new();
        assert(keys_distinct(pair_views(settings@)));
        std::mem::swap(&mut settings, &mut self.settings);
        let ghost e = pair_views(settings@);
        let ghost k = key@;
        let ghost v = value@;
        assert(old(self)@ == entries_map(e));
        let n = settings.len();
        let mut found: Option<usize> = None;
        for i in 0..n
            invariant_except_break
                found is None,
                forall|j: int| 0 <= j < i ==> e[j].0 != k,
            invariant
                n == settings.len(),
                e == pair_views(settings@),
                k == key@,
            ensures
                match found {
                    Some(j) => j < n && e[j as int].0 == k,
                    None => forall|j: int| 0 <= j < n ==> e[j].0 != k,
                },
        {
            if settings[i].0 == key {
                found = Some(i);
                break;
            }
        }
        match found {
            Some(i) => {
                settings.set(i, (key, value));
                assert(pair_views(settings@) =~= e.update(i as int, (k, v)));
                proof {
                    lemma_entries_map_update(e, i as int, k, v);
                }
                assert(keys_distinct(pair_views(settings@))) by {
                    assert forall|a: int, b: int|
                        0 <= a < e.len() && 0 <= b < e.len() && a != b implies pair_views(
                        settings@,
                    )[a].0 != pair_views(settings@)[b].0 by {
                        assert(pair_views(settings@)[a].0 == e[a].0);
                        assert(pair_views(settings@)[b].0 == e[b].0);
                    }
                }
            },
            None => {
                let ghost kv = (key@, value@);
                settings.push((key, value));
                assert(pair_views(settings@) =~= e.push(kv));
                assert(pair_views(settings@).drop_last() =~= e);
            },
        }
        self.settings = settings;
    }

    /// The value of `key`, if it is set.
    pub fn get(&self, key: &str) -> (r: Option<String>)
        ensures
            match r {
                Some(v) => self@.contains_key(key@) && self@[key@] == v@,
                None => !self@.contains_key(key@),
            },
    {
        proof {
            use_type_invariant(self);
        }
        let ghost e = pair_views(self.settings@);
        let wanted = key.to_string();
        let n = self.settings.len();
        for i in 0..n
            invariant
                n == self.settings.len(),
                e == pair_views(self.settings@),
                keys_distinct(e),
                wanted@ == key@,
                forall|j: int| 0 <= j < i ==> e[j].0 != key@,
        {
            if self.settings[i].0 == wanted {
                proof {
                    lemma_entries_map_index(e, i as int);
                }
                return Some(self.settings[i].1.clone());
            }
        }
        proof {
            lemma_entries_map_absent(e, key@);
        }
        None
    }

    /// The settings, one entry per key set, for going through them all.
    pub fn entries(&self) -> (r: &Vec<(String, String)>)
        ensures
            keys_distinct(pair_views(r@)),
            entries_map(pair_views(r@)) == self@,
    {
        proof {
            use_type_invariant(self);
        }
        &self.settings
    }

    /// The number of distinct keys that are set.
    pub fn len(&self) -> (n: usize)
        ensures
            n == self@.len(),
    {
        proof {
            use_type_invariant(self);
            lemma_entries_map_len(pair_views(self.settings@));
        }
        self.settings.len()
    }

    /// The settings that the configuration text `content` makes: each line, trimmed of
    /// whitespace, that is neither empty nor a `#` comment and holds an `=`, sets the
    /// trimmed text before its first `=` to the trimmed text after it, later lines
    /// overriding earlier ones.
    pub fn parse(content: &str) -> (c: KiauhConfig)
        ensures
            c@ == parse_settings(content@),
    {
        let chars = chars_of(content);
        let ls = lines_of(&chars);
        let mut c = KiauhConfig::empty();
        let n = ls.len();
        for i in 0..n
            invariant
                n == ls.len(),
                views(ls@) == lines(content@),
                c@ == settings_of_lines(views(ls@).take(i as int)),
        {
            let ghost pre = views(ls@).take(i as int);
            let ghost now = views(ls@).take(i + 1);
            assert(now.drop_last() =~= pre);
            assert(now.last() == ls@[i as int]@);
            let t = trim_chars(&ls[i]);
            if t.len() == 0 || t[0] == '#' {
            } else {
                match find_char_in(&t, '=') {
                    Some(j) => {
                        let k = trim_chars(&chars_before(&t, j));
                        let v = trim_chars(&chars_from(&t, j + 1));
                        c.insert(string_of(k.as_slice()), string_of(v.as_slice()));
                    },
                    None => {},
                }
            }
        }
        assert(views(ls@).take(n as int) =~= views(ls@));
        c
    }

    /// The configuration that the helper reads from a file: the settings of its text, or
    /// none where the file could not be read.
    pub fn from_file_text(text: Option<String>) -> (c: KiauhConfig)
        ensures
            c@ == match text {
                Some(t) => parse_settings(t@),
                None => parse_settings(Seq::<char>::empty()),
            },
    {
        match text {
            Some(t) => KiauhConfig::parse(t.as_str()),
            None => {
                let c = KiauhConfig::empty();
                assert(segments(Seq::<char>::empty()) == seq![Seq::<char>::empty()]);
                assert(lines(Seq::<char>::empty()) =~= Seq::<Seq<char>>::empty());
                c
            },
        }
    }
}

/// The map of entries with distinct keys has one key per entry.
pub proof fn lemma_entries_map_len(e: Seq<(Seq<char>, Seq<char>)>)
    requires
        keys_distinct(e),
    ensures
        entries_map(e).dom().finite(),
        entries_map(e).len() == e.len(),
    decreases e.len(),
{
    if e.len() > 0 {
        let d = e.drop_last();
        assert(keys_distinct(d));
        lemma_entries_map_len(d);
        assert forall|i: int| 0 <= i < d.len() implies (#[trigger] d[i]).0 != e.last().0 by {
            assert(d[i] == e[i]);
            assert(e.last() == e[e.len() - 1]);
        }
        lemma_entries_map_absent(d, e.last().0);
    }
}

/// The settings of lines read after other lines override those of the lines before.
pub proof fn lemma_settings_of_lines_concat(a: Seq<Seq<char>>, b: Seq<Seq<char>>)
    ensures
        settings_of_lines(a + b) == settings_of_lines(a).union_prefer_right(
            settings_of_lines(b),
        ),
    decreases b.len(),
{
    if b.len() == 0 {
        assert(a + b =~= a);
        assert(settings_of_lines(a).union_prefer_right(settings_of_lines(b)) =~= settings_of_lines(
            a,
        ));
    } else {
        let b1 = b.drop_last();
        lemma_settings_of_lines_concat(a, b1);
        assert((a + b).drop_last() =~= a + b1);
        assert((a + b).last() == b.last());
        let ma = settings_of_lines(a);
        let mb1 = settings_of_lines(b1);
        match line_setting(b.last()) {
            Some(kv) => {
                assert(ma.union_prefer_right(mb1).insert(kv.0, kv.1) =~= ma.union_prefer_right(
                    mb1.insert(kv.0, kv.1),
                ));
            },
            None => {},
        }
    }
}

/// A configuration text made of two, the first ending with a line break: the settings
/// of the second override those of the first, and the other settings of the first stay.
pub proof fn lemma_parse_settings_concat(a: Seq<char>, b: Seq<char>)
    requires
        a.len() == 0 || a.last() == '\n',
    ensures
        parse_settings(a + b) == parse_settings(a).union_prefer_right(parse_settings(b)),
{
    lemma_lines_concat(a, b);
    lemma_settings_of_lines_concat(lines(a), lines(b));
}

/// The setting that a line `key=value` makes: the trimmed key set to the trimmed value,
/// for a key without `=` that is not a `#` comment.
pub proof fn lemma_line_setting_of_assignment(k: Seq<char>, v: Seq<char>)
    requires
        !k.contains('='),
        trim_start(k).len() == 0 || trim_start(k)[0] != '#',
    ensures
        line_setting(k + seq!['='] + v) == Some((trim(k), trim(v))),
{
    let line = k + seq!['='] + v;
    let a = trim_start(k);
    let ev = seq!['='] + v;
    assert(line =~= k + ev);
    assert(ev[0] == '=');
    assert(!is_ws('='));
    lemma_trim_start_concat(k, ev);
    assert(trim_start(ev) == ev);
    let ts = a + seq!['='] + v;
    assert(trim_start(line) =~= ts);
    let ae = a + seq!['='];
    assert(ts =~= ae + v);
    lemma_trim_end_concat(ae, v);
    assert(ae.last() == '=');
    assert(trim_end(ae) == ae);
    let t = ae + trim_end(v);
    assert(trim(line) == t);
    assert(!a.contains('=')) by {
        lemma_trim_start_within(k, '=');
    }
    assert(t =~= a + (seq!['='] + trim_end(v)));
    lemma_find_char_after(a, seq!['='] + trim_end(v), '=');
    let i = a.len() as int;
    assert(find_char(t, '=') == i);
    assert(t.len() > 0);
    if a.len() > 0 {
        assert(t[0] == a[0]);
    } else {
        assert(t[0] == '=');
    }
    assert(t.take(i) =~= a);
    assert(t.skip(i + 1) =~= trim_end(v));
    lemma_trim_start_fixed(k);
    assert(trim(a) == trim(k));
    lemma_trim_commutes(v);
    lemma_trim_end_fixed(trim_start(v));
    assert(trim(trim_end(v)) == trim(v));
}

/// The lines of a text ended by a line break, with one more line that holds no line
/// break: the lines of the text, then that line.
pub proof fn lemma_lines_append_plain(c: Seq<char>, line: Seq<char>)
    requires
        c.len() == 0 || c.last() == '\n',
        line.len() > 0,
        !line.contains('\n'),
    ensures
        lines(c + line) == lines(c) + seq![line],
{
    lemma_lines_concat(c, line);
    lemma_segments_append_plain(Seq::<char>::empty(), line);
    assert(Seq::<char>::empty() + line =~= line);
    assert(segments(Seq::<char>::empty()) == seq![Seq::<char>::empty()]);
    assert(segments(line) =~= seq![line]);
    assert(strip_crs(seq![line].drop_last()) =~= Seq::<Seq<char>>::empty());
    assert(lines(line) =~= seq![line]);
}

/// A configuration text, ended by a line break, with one more line `key=value`: the
/// settings of the text with the trimmed key set to the trimmed value, for a key without
/// `=` that is not a `#` comment, and a key and value without line breaks.
#[verifier::spinoff_prover]
#[verifier::rlimit(40)]
pub proof fn lemma_parse_settings_append_line(c: Seq<char>, k: Seq<char>, v: Seq<char>)
    requires
        c.len() == 0 || c.last() == '\n',
        !k.contains('\n'),
        !v.contains('\n'),
        !k.contains('='),
        trim_start(k).len() == 0 || trim_start(k)[0] != '#',
    ensures
        parse_settings(c + k + seq!['='] + v) == parse_settings(c).insert(trim(k), trim(v)),
{
    let line = k + seq!['='] + v;
    assert(c + k + seq!['='] + v =~= c + line);
    assert(!line.contains('\n')) by {
        if line.contains('\n') {
            let j = choose|j: int| 0 <= j < line.len() && line[j] == '\n';
            if j < k.len() {
                assert(k[j] == '\n');
            } else if j > k.len() {
                assert(v[j - k.len() - 1] == '\n');
            }
        }
    }
    lemma_lines_append_plain(c, line);
    let ls = lines(c) + seq![line];
    assert(ls.drop_last() =~= lines(c));
    assert(ls.last() == line);
    lemma_line_setting_of_assignment(k, v);
}

/// A line whose trimmed text starts with `#` is a comment: it makes no setting, whatever
/// else it holds.
pub proof fn lemma_comment_line_sets_nothing(line: Seq<char>)
    requires
        trim(line).len() > 0,
        trim(line)[0] == '#',
    ensures
        line_setting(line) is None,
{
}

/// A line whose trimmed text is empty makes no setting.
pub proof fn lemma_blank_line_sets_nothing(line: Seq<char>)
    requires
        trim(line).len() == 0,
    ensures
        line_setting(line) is None,
{
}

/// A configuration text, ended by a line break, with one more line that is a `#`
/// comment: the same settings as the text alone, whatever the comment holds (an `=`
/// included).
pub proof fn lemma_parse_settings_append_comment(c: Seq<char>, line: Seq<char>)
    requires
        c.len() == 0 || c.last() == '\n',
        !line.contains('\n'),
        trim(line).len() > 0,
        trim(line)[0] == '#',
    ensures
        parse_settings(c + line) == parse_settings(c),
{
    if line.len() == 0 {
        assert(trim_start(line) == line);
        assert(trim_end(line) == line);
    }
    lemma_lines_append_plain(c, line);
    let ls = lines(c) + seq![line];
    assert(ls.drop_last() =~= lines(c));
    assert(ls.last() == line);
    lemma_comment_line_sets_nothing(line);
}

} // verus!
