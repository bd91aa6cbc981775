//! Reading what `pactl` prints and the state file of the virtual
//! microphone: the lines and words of a text, the module that a module
//! listing shows, whether a source listing holds a source, the module
//! arguments, the state file that records the two module ids, and the
//! steps that create and remove the virtual microphone (the caller runs
//! `pactl` and touches the files between them).

use vstd::prelude::*;
use crate::server::VirtualMicConfig;
use crate::text::{char_is_white_space, is_white_space, str_equals, trim, trimmed};

verus! {

/// Number of characters before the first `\n` (all of them when there is
/// none).
pub open spec fn line_len(s: Seq<char>) -> nat
    decreases s.len(),
{
    if s.len() == 0 || s[0] == '\n' {
        0
    } else {
        1 + line_len(s.drop_first())
    }
}

/// A line without the `\r` of a `\r\n` ending.
pub open spec fn without_cr(l: Seq<char>) -> Seq<char> {
    if l.len() > 0 && l.last() == '\r' {
        l.drop_last()
    } else {
        l
    }
}

/// The lines of a text as `str::lines` gives them: split at each `\n`, the
/// `\r` of a `\r\n` dropped, and no empty line after a final `\n`.
pub open spec fn lines_of(s: Seq<char>) -> Seq<Seq<char>>
    decreases s.len(),
{
    if s.len() == 0 {
        seq![]
    } else {
        let k = line_len(s);
        if k < s.len() {
            seq![without_cr(s.take(k as int))] + lines_of(s.skip(k + 1int))
        } else {
            seq![s]
        }
    }
}

/// Number of characters before the first white space.
pub open spec fn word_len(s: Seq<char>) -> nat
    decreases s.len(),
{
    if s.len() == 0 || is_white_space(s[0]) {
        0
    } else {
        1 + word_len(s.drop_first())
    }
}

/// A word is no longer than the text it starts, and a text that starts
/// with a character other than white space starts with a word.
pub proof fn lemma_word_len_bound(s: Seq<char>)
    ensures
        word_len(s) <= s.len(),
        s.len() > 0 && !is_white_space(s[0]) ==> word_len(s) >= 1,
    decreases s.len(),
{
    if s.len() > 0 && !is_white_space(s[0]) {
        lemma_word_len_bound(s.drop_first());
    }
}

/// The words of a text as `str::split_whitespace` gives them: the maximal
/// runs of characters that are not white space, in order.
pub open spec fn words_of(s: Seq<char>) -> Seq<Seq<char>>
    decreases s.len(),
{
    if s.len() == 0 {
        seq![]
    } else if is_white_space(s[0]) {
        words_of(s.drop_first())
    } else {
        proof {
            lemma_word_len_bound(s);
        }
        seq![s.take(word_len(s) as int)] + words_of(s.skip(word_len(s) as int))
    }
}

/// The words joined by single spaces.
pub open spec fn join_words(ws: Seq<Seq<char>>) -> Seq<char>
    decreases ws.len(),
{
    if ws.len() == 0 {
        seq![]
    } else if ws.len() == 1 {
        ws[0]
    } else {
        join_words(ws.drop_last()) + " "@ + ws.last()
    }
}

/// Whether `needle` occurs in `hay`.
pub open spec fn occurs_in(needle: Seq<char>, hay: Seq<char>) -> bool {
    exists|i: int|
        0 <= i && i + needle.len() <= hay.len() && #[trigger] hay.subrange(i, i + needle.len())
            == needle
}

proof fn lemma_line_len(s: Seq<char>, k: int)
    requires
        0 <= k <= s.len(),
        forall|m: int| 0 <= m < k ==> s[m] != '\n',
        k == s.len() || s[k] == '\n',
    ensures
        line_len(s) == k,
    decreases k,
{
    if k > 0 {
        let t = s.drop_first();
        assert forall|m: int| 0 <= m < k - 1 implies t[m] != '\n' by {
            assert(t[m] == s[m + 1]);
        }
        lemma_line_len(t, k - 1);
    }
}

proof fn lemma_word_len(s: Seq<char>, k: int)
    requires
        0 <= k <= s.len(),
        forall|m: int| 0 <= m < k ==> !is_white_space(#[trigger] s[m]),
        k == s.len() || is_white_space(s[k]),
    ensures
        word_len(s) == k,
    decreases k,
{
    if k > 0 {
        let t = s.drop_first();
        assert forall|m: int| 0 <= m < k - 1 implies !is_white_space(#[trigger] t[m]) by {
            assert(t[m] == s[m + 1]);
        }
        lemma_word_len(t, k - 1);
    }
}

/// Where the line that starts at `start` ends: the index of the next `\n`,
/// or the end of the text.
fn line_end(s: &str, start: usize) -> (end: usize)
    requires
        start <= s@.len(),
    ensures
        start <= end <= s@.len(),
        end - start == line_len(s@.skip(start as int)),
{
    let n = s.unicode_len();
    let mut j = start;
    while j < n && s.get_char(j) != '\n'
        invariant
            n == s@.len(),
            start <= j <= n,
            forall|m: int| start <= m < j ==> s@[m] != '\n',
        decreases n - j,
    {
        j = j + 1;
    }
    proof {
        let t = s@.skip(start as int);
        assert forall|m: int| 0 <= m < j - start implies t[m] != '\n' by {
            assert(t[m] == s@[start + m]);
        }
        lemma_line_len(t, j - start);
    }
    j
}

/// The first line of what is left of a text at `pos`, and where the rest
/// starts.
proof fn lemma_lines_step(s: Seq<char>, pos: int, end: int)
    requires
        0 <= pos < s.len(),
        pos <= end <= s.len(),
        end - pos == line_len(s.skip(pos)),
    ensures
        end < s.len() ==> lines_of(s.skip(pos)) == seq![without_cr(s.subrange(pos, end))] + lines_of(
            s.skip(end + 1),
        ),
        end == s.len() ==> lines_of(s.skip(pos)) == seq![s.subrange(pos, end)],
{
    let t = s.skip(pos);
    assert(t.take(end - pos) =~= s.subrange(pos, end));
    if end < s.len() {
        assert(t.skip(end - pos + 1) =~= s.skip(end + 1));
    } else {
        assert(t =~= s.subrange(pos, end));
    }
}

/// The line of a text from `pos` to `end` (its `\n` or the end of the
/// text), without the `\r` of a `\r\n` ending.
fn line_at(s: &str, pos: usize, end: usize) -> (l: &str)
    requires
        pos <= end <= s@.len(),
    ensures
        end < s@.len() ==> l@ == without_cr(s@.subrange(pos as int, end as int)),
        end == s@.len() ==> l@ == s@.subrange(pos as int, end as int),
{
    if end < s.unicode_len() && end > pos && s.get_char(end - 1) == '\r' {
        let l = s.substring_char(pos, end - 1);
        assert(l@ =~= s@.subrange(pos as int, end as int).drop_last());
        l
    } else {
        s.substring_char(pos, end)
    }
}

/// The words of `s` (`str::split_whitespace`).
pub fn split_words(s: &str) -> (w: Vec<String>)
    ensures
        w@.map_values(|x: String| x@) == words_of(s@),
{
    let n = s.unicode_len();
    let mut w: Vec<String> = Vec::new();
    let mut pos: usize = 0;
    assert(s@.skip(0) =~= s@);
    while pos < n
        invariant
            n == s@.len(),
            pos <= n,
            words_of(s@) == w@.map_values(|x: String| x@) + words_of(s@.skip(pos as int)),
        decreases n - pos,
    {
        let ghost t = s@.skip(pos as int);
        if char_is_white_space(s.get_char(pos)) {
            assert(t.drop_first() =~= s@.skip(pos + 1));
            pos = pos + 1;
        } else {
            let mut e = pos + 1;
            while e < n && !char_is_white_space(s.get_char(e))
                invariant
                    n == s@.len(),
                    pos < e <= n,
                    forall|m: int| pos <= m < e ==> !is_white_space(#[trigger] s@[m]),
                decreases n - e,
            {
                e = e + 1;
            }
            proof {
                assert forall|m: int| 0 <= m < e - pos implies !is_white_space(#[trigger] t[m]) by {
                    assert(t[m] == s@[pos + m]);
                }
                if e < n {
                    assert(t[e - pos] == s@[e as int]);
                }
                lemma_word_len(t, e - pos);
                assert(t.take(e - pos) =~= s@.subrange(pos as int, e as int));
                assert(t.skip(e - pos) =~= s@.skip(e as int));
            }
            let ghost before = w@.map_values(|x: String| x@);
            let word = String::from_str(s.substring_char(pos, e));
            w.push(word);
            assert(w@.map_values(|x: String| x@) =~= before.push(s@.subrange(pos as int, e as int)));
            assert(before + words_of(t) =~= before.push(s@.subrange(pos as int, e as int))
                + words_of(s@.skip(e as int)));
            pos = e;
        }
    }
    assert(s@.skip(n as int) =~= Seq::<char>::empty());
    assert(w@.map_values(|x: String| x@) + Seq::<Seq<char>>::empty() =~= w@.map_values(
        |x: String| x@,
    ));
    w
}

/// Whether `needle` occurs in `hay`.
pub fn contains_text(hay: &str, needle: &str) -> (r: bool)
    ensures
        r == occurs_in(needle@, hay@),
{
    let n = hay.unicode_len();
    let m = needle.unicode_len();
    if m > n {
        return false;
    }
    let mut i: usize = 0;
    while i <= n - m
        invariant
            n == hay@.len(),
            m == needle@.len(),
            m <= n,
            i <= n - m + 1,
            forall|k: int| 0 <= k < i ==> #[trigger] hay@.subrange(k, k + m) != needle@,
        decreases n - m + 1 - i,
    {
        let mut j: usize = 0;
        let mut same = true;
        while j < m && same
            invariant
                n == hay@.len(),
                m == needle@.len(),
                i + m <= n,
                j <= m,
                same == forall|q: int| 0 <= q < j ==> hay@[i + q] == needle@[q],
            decreases m - j,
        {
            if hay.get_char(i + j) != needle.get_char(j) {
                same = false;
            }
            j = j + 1;
        }
        if same {
            assert(hay@.subrange(i as int, i + m) =~= needle@);
            return true;
        }
        proof {
            let q = choose|q: int| 0 <= q < j && hay@[i + q] != needle@[q];
            assert(hay@.subrange(i as int, i + m)[q] == hay@[i + q]);
        }
        i = i + 1;
    }
    false
}

/// The words from `from` on, joined by single spaces.
fn join_from(ws: &Vec<String>, from: usize) -> (r: String)
    requires
        from <= ws@.len(),
    ensures
        r@ == join_words(ws@.map_values(|x: String| x@).skip(from as int)),
{
    let ghost all = ws@.map_values(|x: String| x@);
    let n = ws.len();
    let mut r = String::from_str("");
    proof { reveal_strlit(""); }
    let mut i = from;
    assert(all.skip(from as int).take(0) =~= Seq::<Seq<char>>::empty());
    while i < n
        invariant
            n == ws@.len(),
            all == ws@.map_values(|x: String| x@),
            from <= i <= n,
            r@ == join_words(all.skip(from as int).take(i - from)),
        decreases n - i,
    {
        let ghost part = all.skip(from as int).take(i + 1 - from);
        assert(part.drop_last() =~= all.skip(from as int).take(i - from));
        assert(part.last() == ws@[i as int]@);
        if i == from {
            r = ws[i].clone();
            assert(part =~= seq![ws@[i as int]@]);
        } else {
            r = r.concat(" ").concat(ws[i].as_str());
        }
        i = i + 1;
    }
    assert(all.skip(from as int).take(n - from) =~= all.skip(from as int));
    r
}

/// The id of the module that a `pactl list short modules` listing shows
/// for `module` with `needle` among its arguments: the first word of the
/// first line whose second word is `module` and whose words after the
/// second, joined by single spaces, hold `needle`. A line with fewer than
/// two words ends the search with none.
pub open spec fn module_id_in(lines: Seq<Seq<char>>, module: Seq<char>, needle: Seq<char>) -> Option<
    Seq<char>,
>
    decreases lines.len(),
{
    if lines.len() == 0 {
        None
    } else {
        let w = words_of(lines[0]);
        if w.len() < 2 {
            None
        } else if w[1] == module && occurs_in(needle, join_words(w.skip(2))) {
            Some(w[0])
        } else {
            module_id_in(lines.drop_first(), module, needle)
        }
    }
}

/// Whether a `pactl list short sources` listing holds the source `name`:
/// some line has `name` as its second word.
pub open spec fn source_listed(lines: Seq<Seq<char>>, name: Seq<char>) -> bool
    decreases lines.len(),
{
    if lines.len() == 0 {
        false
    } else {
        let w = words_of(lines[0]);
        (w.len() >= 2 && w[1] == name) || source_listed(lines.drop_first(), name)
    }
}

proof fn lemma_first_line<A>(l: A, rest: Seq<A>)
    ensures
        (seq![l] + rest)[0] == l,
        (seq![l] + rest).drop_first() == rest,
        (seq![l] + rest).len() == rest.len() + 1,
{
    assert((seq![l] + rest).drop_first() =~= rest);
}

/// Finds the module that a module listing shows (see `module_id_in`).
pub fn find_module_in_listing(listing: &str, module: &str, needle: &str) -> (r: Option<String>)
    ensures
        match r {
            Some(id) => module_id_in(lines_of(listing@), module@, needle@) == Some(id@),
            None => module_id_in(lines_of(listing@), module@, needle@) is None,
        },
{
    let n = listing.unicode_len();
    let mut pos: usize = 0;
    assert(listing@.skip(0) =~= listing@);
    while pos < n
        invariant
            n == listing@.len(),
            pos <= n,
            module_id_in(lines_of(listing@), module@, needle@) == module_id_in(
                lines_of(listing@.skip(pos as int)),
                module@,
                needle@,
            ),
        decreases n - pos,
    {
        let end = line_end(listing, pos);
        proof {
            lemma_lines_step(listing@, pos as int, end as int);
        }
        let line = line_at(listing, pos, end);
        let ghost rest: Seq<Seq<char>> = if end < n {
            lines_of(listing@.skip(end + 1))
        } else {
            seq![]
        };
        proof {
            assert(lines_of(listing@.skip(pos as int)) == seq![line@] + rest) by {
                if end == n {
                    assert(seq![line@] + rest =~= seq![line@]);
                }
            }
            lemma_first_line(line@, rest);
        }
        let words = split_words(line);
        let ghost w = words@.map_values(|x: String| x@);
        if words.len() < 2 {
            return None;
        }
        if str_equals(words[1].as_str(), module) {
            let joined = join_from(&words, 2);
            if contains_text(joined.as_str(), needle) {
                return Some(words[0].clone());
            }
        }
        if end < n {
            pos = end + 1;
        } else {
            pos = n;
            assert(listing@.skip(n as int) =~= Seq::<char>::empty());
        }
    }
    assert(listing@.skip(n as int) =~= Seq::<char>::empty());
    None
}

/// Whether a source listing holds the source `name` (see
/// `source_listed`).
pub fn listing_has_source(listing: &str, name: &str) -> (r: bool)
    ensures
        r == source_listed(lines_of(listing@), name@),
{
    let n = listing.unicode_len();
    let mut pos: usize = 0;
    assert(listing@.skip(0) =~= listing@);
    while pos < n
        invariant
            n == listing@.len(),
            pos <= n,
            source_listed(lines_of(listing@), name@) == source_listed(
                lines_of(listing@.skip(pos as int)),
                name@,
            ),
        decreases n - pos,
    {
        let end = line_end(listing, pos);
        proof {
            lemma_lines_step(listing@, pos as int, end as int);
        }
        let line = line_at(listing, pos, end);
        let ghost rest: Seq<Seq<char>> = if end < n {
            lines_of(listing@.skip(end + 1))
        } else {
            seq![]
        };
        proof {
            assert(lines_of(listing@.skip(pos as int)) == seq![line@] + rest) by {
                if end == n {
                    assert(seq![line@] + rest =~= seq![line@]);
                }
            }
            lemma_first_line(line@, rest);
        }
        let words = split_words(line);
        let ghost w = words@.map_values(|x: String| x@);
        if words.len() >= 2 && str_equals(words[1].as_str(), name) {
            return true;
        }
        if end < n {
            pos = end + 1;
        } else {
            pos = n;
            assert(listing@.skip(n as int) =~= Seq::<char>::empty());
        }
    }
    assert(listing@.skip(n as int) =~= Seq::<char>::empty());
    false
}

/// Whether `s` starts with `p`.
pub open spec fn has_prefix(s: Seq<char>, p: Seq<char>) -> bool {
    p.len() <= s.len() && s.take(p.len() as int) == p
}

/// `s` without its leading `"` characters.
pub open spec fn quotes_front(s: Seq<char>) -> Seq<char>
    decreases s.len(),
{
    if s.len() > 0 && s[0] == '"' {
        quotes_front(s.drop_first())
    } else {
        s
    }
}

/// `s` without its trailing `"` characters.
pub open spec fn quotes_back(s: Seq<char>) -> Seq<char>
    decreases s.len(),
{
    if s.len() > 0 && s.last() == '"' {
        quotes_back(s.drop_last())
    } else {
        s
    }
}

/// `s` without the `"` characters at either end (`trim_matches('"')`).
pub open spec fn strip_quotes(s: Seq<char>) -> Seq<char> {
    quotes_back(quotes_front(s))
}

/// The key of the line that records the null sink's module id.
pub open spec fn sink_key() -> Seq<char> {
    "SINK_MODULE_ID="@
}

/// The key of the line that records the remap source's module id.
pub open spec fn source_key() -> Seq<char> {
    "SOURCE_MODULE_ID="@
}

/// The two module ids that the lines of a state file record (sink, then
/// source): for each key, the value of its last line with the quotes
/// stripped; empty where no line has the key.
pub open spec fn state_ids(lines: Seq<Seq<char>>) -> (Seq<char>, Seq<char>)
    decreases lines.len(),
{
    if lines.len() == 0 {
        (seq![], seq![])
    } else {
        let prev = state_ids(lines.drop_last());
        let l = lines.last();
        if has_prefix(l, sink_key()) {
            (strip_quotes(l.skip(sink_key().len() as int)), prev.1)
        } else if has_prefix(l, source_key()) {
            (prev.0, strip_quotes(l.skip(source_key().len() as int)))
        } else {
            prev
        }
    }
}

/// The text after `prefix`, where `s` starts with it.
fn strip_prefix<'a>(s: &'a str, prefix: &str) -> (r: Option<&'a str>)
    ensures
        has_prefix(s@, prefix@) ==> (r matches Some(x) && x@ == s@.skip(prefix@.len() as int)),
        !has_prefix(s@, prefix@) ==> r is None,
{
    let n = s.unicode_len();
    let p = prefix.unicode_len();
    if p > n {
        return None;
    }
    if str_equals(s.substring_char(0, p), prefix) {
        let rest = s.substring_char(p, n);
        assert(rest@ =~= s@.skip(p as int));
        Some(rest)
    } else {
        assert(s@.subrange(0, p as int) =~= s@.take(p as int));
        None
    }
}

/// A copy of `s` without the `"` characters at either end.
pub fn strip_quotes_str(s: &str) -> (r: String)
    ensures
        r@ == strip_quotes(s@),
{
    let n = s.unicode_len();
    let mut i: usize = 0;
    assert(s@.subrange(0, n as int) =~= s@);
    while i < n && s.get_char(i) == '"'
        invariant
            n == s@.len(),
            i <= n,
            quotes_front(s@) == quotes_front(s@.subrange(i as int, n as int)),
        decreases n - i,
    {
        assert(s@.subrange(i as int, n as int).drop_first() =~= s@.subrange(i + 1, n as int));
        i = i + 1;
    }
    assert(quotes_front(s@.subrange(i as int, n as int)) == s@.subrange(i as int, n as int));
    let mut j: usize = n;
    while j > i && s.get_char(j - 1) == '"'
        invariant
            n == s@.len(),
            i <= j <= n,
            strip_quotes(s@) == quotes_back(s@.subrange(i as int, j as int)),
        decreases j,
    {
        assert(s@.subrange(i as int, j as int).drop_last() =~= s@.subrange(i as int, j - 1));
        j = j - 1;
    }
    assert(quotes_back(s@.subrange(i as int, j as int)) == s@.subrange(i as int, j as int));
    String::from_str(s.substring_char(i, j))
}

/// Reads the state file of the virtual microphone: the module ids of the
/// null sink and of the remap source (see `state_ids`).
pub fn parse_virtual_mic_state(content: &str) -> (r: (String, String))
    ensures
        (r.0@, r.1@) == state_ids(lines_of(content@)),
{
    proof {
        reveal_strlit("SINK_MODULE_ID=");
        reveal_strlit("SOURCE_MODULE_ID=");
    }
    let n = content.unicode_len();
    let mut sink_id = String::from_str("");
    let mut source_id = String::from_str("");
    proof {
        reveal_strlit("");
    }
    let ghost mut done: Seq<Seq<char>> = seq![];
    let mut pos: usize = 0;
    assert(content@.skip(0) =~= content@);
    assert(seq![] + lines_of(content@) =~= lines_of(content@));
    while pos < n
        invariant
            n == content@.len(),
            pos <= n,
            lines_of(content@) == done + lines_of(content@.skip(pos as int)),
            (sink_id@, source_id@) == state_ids(done),
        decreases n - pos,
    {
        let end = line_end(content, pos);
        proof {
            lemma_lines_step(content@, pos as int, end as int);
        }
        let line = line_at(content, pos, end);
        let ghost rest: Seq<Seq<char>> = if end < n {
            lines_of(content@.skip(end + 1))
        } else {
            seq![]
        };
        proof {
            assert(lines_of(content@.skip(pos as int)) == seq![line@] + rest) by {
                if end == n {
                    assert(seq![line@] + rest =~= seq![line@]);
                }
            }
            assert(done + (seq![line@] + rest) =~= done.push(line@) + rest);
            assert(done.push(line@).drop_last() =~= done);
        }
        match strip_prefix(line, "SINK_MODULE_ID=") {
            Some(v) => {
                sink_id = strip_quotes_str(v);
            },
            None => {
                match strip_prefix(line, "SOURCE_MODULE_ID=") {
                    Some(v) => {
                        source_id = strip_quotes_str(v);
                    },
                    None => {},
                }
            },
        }
        proof {
            done = done.push(line@);
        }
        if end < n {
            pos = end + 1;
        } else {
            pos = n;
        }
    }
    assert(content@.skip(n as int) =~= Seq::<char>::empty());
    assert(done + Seq::<Seq<char>>::empty() =~= done);
    (sink_id, source_id)
}

/// The text of the state file: the two module ids and the two names, each
/// quoted on a line of its own.
pub open spec fn state_text(sink_id: Seq<char>, source_id: Seq<char>, sink_name: Seq<char>, source_name: Seq<char>) -> Seq<char> {
    sink_key() + "\""@ + sink_id + "\"\n"@ + source_key() + "\""@ + source_id + "\"\n"@
        + "SINK_NAME=\""@ + sink_name + "\"\n"@ + "SOURCE_NAME=\""@ + source_name + "\"\n"@
}

/// Writes the text of the state file for the modules `sink_id` and
/// `source_id` of `config`.
pub fn virtual_mic_state_text(config: &VirtualMicConfig, sink_id: &str, source_id: &str) -> (r: String)
    ensures
        r@ == state_text(sink_id@, source_id@, config.sink_name@, config.source_name@),
{
    proof {
        reveal_strlit("SINK_MODULE_ID=");
        reveal_strlit("SOURCE_MODULE_ID=");
    }
    let r = String::from_str("SINK_MODULE_ID=").concat("\"").concat(sink_id).concat("\"\n").concat(
        "SOURCE_MODULE_ID=",
    ).concat("\"").concat(source_id).concat("\"\n").concat("SINK_NAME=\"").concat(
        config.sink_name.as_str(),
    ).concat("\"\n").concat("SOURCE_NAME=\"").concat(config.source_name.as_str()).concat("\"\n");
    r
}

/// The arguments that load the null sink behind the virtual microphone:
/// its name and its description.
pub fn null_sink_args(config: &VirtualMicConfig) -> (a: Vec<String>)
    ensures
        a@.map_values(|x: String| x@) == seq![
            "sink_name="@ + config.sink_name@,
            "sink_properties=device.description="@ + config.sink_desc@,
        ],
{
    let mut a: Vec<String> = Vec::new();
    a.push(String::from_str("sink_name=").concat(config.sink_name.as_str()));
    a.push(String::from_str("sink_properties=device.description=").concat(config.sink_desc.as_str()));
    assert(a@.map_values(|x: String| x@) =~= seq![
        "sink_name="@ + config.sink_name@,
        "sink_properties=device.description="@ + config.sink_desc@,
    ]);
    a
}

/// The arguments that load the source that remaps the null sink's monitor:
/// the monitor, the source's name and its description.
pub fn remap_source_args(config: &VirtualMicConfig) -> (a: Vec<String>)
    ensures
        a@.map_values(|x: String| x@) == seq![
            "master="@ + config.sink_name@ + ".monitor"@,
            "source_name="@ + config.source_name@,
            "source_properties=device.description="@ + config.source_desc@,
        ],
{
    let mut a: Vec<String> = Vec::new();
    a.push(String::from_str("master=").concat(config.sink_name.as_str()).concat(".monitor"));
    a.push(String::from_str("source_name=").concat(config.source_name.as_str()));
    a.push(
        String::from_str("source_properties=device.description=").concat(config.source_desc.as_str()),
    );
    assert(a@.map_values(|x: String| x@) =~= seq![
        "master="@ + config.sink_name@ + ".monitor"@,
        "source_name="@ + config.source_name@,
        "source_properties=device.description="@ + config.source_desc@,
    ]);
    a
}

/// The module id that `pactl load-module` printed: its output trimmed; an
/// error where that is empty.
pub fn module_id_from_output(stdout: &str) -> (r: Result<String, String>)
    ensures
        trimmed(stdout@).len() > 0 ==> (r matches Ok(id) && id@ == trimmed(stdout@)),
        trimmed(stdout@).len() == 0 ==> (r matches Err(e) && e@
            == "pactl load-module returned empty module id"@),
{
    let id = trim(stdout);
    if id.unicode_len() == 0 {
        Err(String::from_str("pactl load-module returned empty module id"))
    } else {
        Ok(id)
    }
}

proof fn lemma_lines_cons(l: Seq<char>, rest: Seq<char>)
    requires
        forall|m: int| 0 <= m < l.len() ==> l[m] != '\n',
        l.len() > 0 && l.last() != '\r',
    ensures
        lines_of(l + seq!['\n'] + rest) == seq![l] + lines_of(rest),
{
    let s = l + seq!['\n'] + rest;
    assert forall|m: int| 0 <= m < l.len() implies s[m] != '\n' by {
        assert(s[m] == l[m]);
    }
    assert(s[l.len() as int] == '\n');
    lemma_line_len(s, l.len() as int);
    assert(s.take(l.len() as int) =~= l);
    assert(s.skip(l.len() + 1int) =~= rest);
}

proof fn lemma_strip_quoted(id: Seq<char>)
    requires
        id.len() == 0 || (id[0] != '"' && id.last() != '"'),
    ensures
        strip_quotes(seq!['"'] + id + seq!['"']) == id,
{
    let q = seq!['"'] + id + seq!['"'];
    let t = id + seq!['"'];
    assert(q[0] == '"');
    assert(q.drop_first() =~= t);
    assert(quotes_front(q) == quotes_front(t));
    if id.len() == 0 {
        assert(t =~= seq!['"']);
        assert(t[0] == '"');
        assert(t.drop_first() =~= Seq::<char>::empty());
        assert(quotes_front(t) == quotes_front(Seq::<char>::empty()));
        assert(quotes_front(q) == Seq::<char>::empty());
        assert(quotes_back(Seq::<char>::empty()) == Seq::<char>::empty());
        assert(id =~= Seq::<char>::empty());
    } else {
        assert(t[0] == id[0]);
        assert(quotes_front(t) == t);
        assert(t.last() == '"');
        assert(t.drop_last() =~= id);
        assert(quotes_back(t) == quotes_back(id));
        assert(quotes_back(id) == id);
    }
}

proof fn lemma_text_lines(l1: Seq<char>, l2: Seq<char>, l3: Seq<char>, l4: Seq<char>)
    requires
        forall|m: int| 0 <= m < l1.len() ==> l1[m] != '\n',
        forall|m: int| 0 <= m < l2.len() ==> l2[m] != '\n',
        forall|m: int| 0 <= m < l3.len() ==> l3[m] != '\n',
        forall|m: int| 0 <= m < l4.len() ==> l4[m] != '\n',
        l1.len() > 0 && l1.last() != '\r',
        l2.len() > 0 && l2.last() != '\r',
        l3.len() > 0 && l3.last() != '\r',
        l4.len() > 0 && l4.last() != '\r',
    ensures
        lines_of(
            l1 + seq!['\n'] + (l2 + seq!['\n'] + (l3 + seq!['\n'] + (l4 + seq!['\n']
                + Seq::<char>::empty()))),
        ) == seq![l1, l2, l3, l4],
{
    let nl = seq!['\n'];
    let e = Seq::<char>::empty();
    lemma_lines_cons(l4, e);
    lemma_lines_cons(l3, l4 + nl + e);
    lemma_lines_cons(l2, l3 + nl + (l4 + nl + e));
    lemma_lines_cons(l1, l2 + nl + (l3 + nl + (l4 + nl + e)));
    assert(lines_of(e) == Seq::<Seq<char>>::empty());
    assert(seq![l1] + (seq![l2] + (seq![l3] + (seq![l4] + Seq::<Seq<char>>::empty())))
        =~= seq![l1, l2, l3, l4]);
}

proof fn lemma_state_ids_four(
    l1: Seq<char>,
    l2: Seq<char>,
    l3: Seq<char>,
    l4: Seq<char>,
    a: Seq<char>,
    b: Seq<char>,
)
    requires
        has_prefix(l1, sink_key()),
        strip_quotes(l1.skip(sink_key().len() as int)) == a,
        !has_prefix(l2, sink_key()),
        has_prefix(l2, source_key()),
        strip_quotes(l2.skip(source_key().len() as int)) == b,
        !has_prefix(l3, sink_key()) && !has_prefix(l3, source_key()),
        !has_prefix(l4, sink_key()) && !has_prefix(l4, source_key()),
    ensures
        state_ids(seq![l1, l2, l3, l4]) == (a, b),
{
    let s1 = seq![l1];
    let s2 = seq![l1, l2];
    let s3 = seq![l1, l2, l3];
    let s4 = seq![l1, l2, l3, l4];
    assert(s1.drop_last() =~= Seq::<Seq<char>>::empty());
    assert(s2.drop_last() =~= s1);
    assert(s3.drop_last() =~= s2);
    assert(s4.drop_last() =~= s3);
    assert(state_ids(Seq::<Seq<char>>::empty()) == (Seq::<char>::empty(), Seq::<char>::empty()));
    assert(state_ids(s1) == (a, Seq::<char>::empty()));
    assert(state_ids(s2) == (a, b));
    assert(state_ids(s3) == (a, b));
}

proof fn lemma_no_line_break(pre: Seq<char>, mid: Seq<char>, post: Seq<char>)
    requires
        forall|m: int| 0 <= m < pre.len() ==> pre[m] != '\n',
        forall|m: int| 0 <= m < mid.len() ==> mid[m] != '\n',
        forall|m: int| 0 <= m < post.len() ==> post[m] != '\n',
    ensures
        forall|m: int| 0 <= m < (pre + mid + post).len() ==> (pre + mid + post)[m] != '\n',
{
    assert forall|m: int| 0 <= m < (pre + mid + post).len() implies (pre + mid + post)[m]
        != '\n' by {
        if m < pre.len() {
            assert((pre + mid + post)[m] == pre[m]);
        } else if m < pre.len() + mid.len() {
            assert((pre + mid + post)[m] == mid[m - pre.len()]);
        } else {
            assert((pre + mid + post)[m] == post[m - pre.len() - mid.len()]);
        }
    }
}

/// Reading the state file that was written gives back the two module ids
/// that were written, for ids that do not begin or end with `"` and names
/// and ids that hold no line break.
pub proof fn lemma_state_file_roundtrip(
    sink_id: Seq<char>,
    source_id: Seq<char>,
    sink_name: Seq<char>,
    source_name: Seq<char>,
)
    requires
        sink_id.len() == 0 || (sink_id[0] != '"' && sink_id.last() != '"'),
        source_id.len() == 0 || (source_id[0] != '"' && source_id.last() != '"'),
        forall|m: int| 0 <= m < sink_id.len() ==> sink_id[m] != '\n',
        forall|m: int| 0 <= m < source_id.len() ==> source_id[m] != '\n',
        forall|m: int| 0 <= m < sink_name.len() ==> sink_name[m] != '\n',
        forall|m: int| 0 <= m < source_name.len() ==> source_name[m] != '\n',
    ensures
        state_ids(lines_of(state_text(sink_id, source_id, sink_name, source_name))) == (
            sink_id,
            source_id,
        ),
{
    reveal_strlit("SINK_MODULE_ID=");
    reveal_strlit("SOURCE_MODULE_ID=");
    reveal_strlit("\"");
    reveal_strlit("\"\n");
    reveal_strlit("SINK_NAME=\"");
    reveal_strlit("SOURCE_NAME=\"");
    let q = seq!['"'];
    let k1 = sink_key() + q;
    let k2 = source_key() + q;
    let k3 = "SINK_NAME=\""@;
    let k4 = "SOURCE_NAME=\""@;
    let l1 = k1 + sink_id + q;
    let l2 = k2 + source_id + q;
    let l3 = k3 + sink_name + q;
    let l4 = k4 + source_name + q;
    let nl = seq!['\n'];
    let text = state_text(sink_id, source_id, sink_name, source_name);
    assert(text =~= l1 + nl + (l2 + nl + (l3 + nl + (l4 + nl + Seq::<char>::empty()))));
    lemma_no_line_break(k1, sink_id, q);
    lemma_no_line_break(k2, source_id, q);
    lemma_no_line_break(k3, sink_name, q);
    lemma_no_line_break(k4, source_name, q);
    lemma_text_lines(l1, l2, l3, l4);
    assert(l1.take(sink_key().len() as int) =~= sink_key());
    assert(l2.take(source_key().len() as int) =~= source_key());
    assert(!has_prefix(l2, sink_key())) by {
        if has_prefix(l2, sink_key()) {
            assert(l2.take(sink_key().len() as int)[1] == l2[1]);
        }
    }
    assert(!has_prefix(l3, sink_key())) by {
        if has_prefix(l3, sink_key()) {
            assert(l3.take(sink_key().len() as int)[5] == l3[5]);
        }
    }
    assert(!has_prefix(l3, source_key())) by {
        if has_prefix(l3, source_key()) {
            assert(l3.take(source_key().len() as int)[1] == l3[1]);
        }
    }
    assert(!has_prefix(l4, sink_key())) by {
        if has_prefix(l4, sink_key()) {
            assert(l4.take(sink_key().len() as int)[1] == l4[1]);
        }
    }
    assert(!has_prefix(l4, source_key())) by {
        if has_prefix(l4, source_key()) {
            assert(l4.take(source_key().len() as int)[7] == l4[7]);
        }
    }
    assert(l1.skip(sink_key().len() as int) =~= q + sink_id + q);
    assert(l2.skip(source_key().len() as int) =~= q + source_id + q);
    lemma_strip_quoted(sink_id);
    lemma_strip_quoted(source_id);
    lemma_state_ids_four(l1, l2, l3, l4, sink_id, source_id);
}

/// Where the creation of the virtual microphone stands. It starts at
/// `Probing`, with the caller looking for the source.
#[derive(Debug)]
pub enum MicCreation {
    /// Waiting to learn whether the source already exists.
    Probing,
    /// Waiting for the null sink's module id.
    LoadingSink,
    /// Waiting for the remap source's module id; the sink is loaded.
    LoadingSource { sink_id: String },
    /// The source failed to load: unloading the sink, then failing.
    UndoingSink { error: String },
    /// Both modules loaded: waiting to learn whether the source now exists.
    Checking { sink_id: String, source_id: String },
    /// The source did not show up: unloading it, then the sink, then
    /// failing.
    UndoingSource { sink_id: String, error: String },
    /// Waiting for the state file to be written.
    Recording,
    /// Finished: `Ok(true)` created, `Ok(false)` it existed already, or
    /// why it failed.
    Done(Result<bool, String>),
}

/// Where the removal of the virtual microphone stands. It starts at
/// `Reading`, with the caller reading the state file.
#[derive(Debug)]
pub enum MicRemoval {
    /// Waiting for the text of the state file.
    Reading,
    /// The state file names no sink: waiting for the module listing's
    /// answer.
    FindingSink { source_id: String },
    /// The state file names no source: waiting for the listing's answer.
    FindingSource { sink_id: String },
    /// Unloading the source; the sink comes next.
    UnloadingSource { sink_id: String },
    /// Unloading the sink.
    UnloadingSink,
    /// Removing the state file.
    RemovingState,
    /// Waiting to learn whether the source is gone.
    Checking,
    /// Finished: removed, or why not.
    Done(Result<(), String>),
}

/// What the caller reports back after doing what it was asked.
#[derive(Debug)]
pub enum MicEvent {
    /// Whether the source is listed (or why listing failed).
    Probed(Result<bool, String>),
    /// The id of the module just loaded (or why loading failed).
    Loaded(Result<String, String>),
    /// Whether unloading worked.
    Unloaded(Result<(), String>),
    /// Whether the state file was written.
    Written(Result<(), String>),
    /// The text of the state file (empty where there is none).
    StateRead(String),
    /// The module that the listing shows, if any.
    Found(Option<String>),
    /// The state file is gone (or never was).
    StateRemoved,
}

/// What the caller is to do next.
#[derive(Debug)]
pub enum MicAction {
    /// Look for the source in the source listing.
    ProbeSource,
    /// Load the null sink (`null_sink_args`).
    LoadSink,
    /// Load the remap source (`remap_source_args`).
    LoadSource,
    /// Unload the module with this id.
    Unload(String),
    /// Write this text to the state file.
    WriteState(String),
    /// Look for the null sink in the module listing (by its name).
    FindSink,
    /// Look for the remap source in the module listing (by its name).
    FindSource,
    /// Remove the state file.
    RemoveState,
    /// Nothing more: the outcome is in the state.
    Finish,
}

/// Whether a creation step expects this event.
pub open spec fn creation_expects(c: MicCreation, e: MicEvent) -> bool {
    match c {
        MicCreation::Probing | MicCreation::Checking { .. } => e is Probed,
        MicCreation::LoadingSink | MicCreation::LoadingSource { .. } => e is Loaded,
        MicCreation::UndoingSink { .. } | MicCreation::UndoingSource { .. } => e is Unloaded,
        MicCreation::Recording => e is Written,
        MicCreation::Done(_) => false,
    }
}

/// Whether a removal step expects this event.
pub open spec fn removal_expects(r: MicRemoval, e: MicEvent) -> bool {
    match r {
        MicRemoval::Reading => e is StateRead,
        MicRemoval::FindingSink { .. } | MicRemoval::FindingSource { .. } => e is Found,
        MicRemoval::UnloadingSource { .. } | MicRemoval::UnloadingSink => e is Unloaded,
        MicRemoval::RemovingState => e is StateRemoved,
        MicRemoval::Checking => e is Probed,
        MicRemoval::Done(_) => false,
    }
}

/// The error when the source is missing after both modules loaded.
pub open spec fn not_created_message(source_name: Seq<char>) -> Seq<char> {
    "created virtual mic but source not found: "@ + source_name
}

/// The error when the source is still there after removal.
pub open spec fn not_removed_message(source_name: Seq<char>) -> Seq<char> {
    "virtual mic still exists after remove: "@ + source_name
}

/// The removal step once both ids are known: unload the source where there
/// is one, else the sink where there is one, else remove the state file.
pub open spec fn unload_phase(sink_id: String, source_id: String, next: MicRemoval, action: MicAction) -> bool {
    if source_id@.len() > 0 {
        next == (MicRemoval::UnloadingSource { sink_id }) && action == MicAction::Unload(source_id)
    } else if sink_id@.len() > 0 {
        next == MicRemoval::UnloadingSink && action == MicAction::Unload(sink_id)
    } else {
        next == MicRemoval::RemovingState && action == MicAction::RemoveState
    }
}

fn unload_phase_step(sink_id: String, source_id: String) -> (r: (MicRemoval, MicAction))
    ensures
        unload_phase(sink_id, source_id, r.0, r.1),
{
    if source_id.unicode_len() > 0 {
        (MicRemoval::UnloadingSource { sink_id }, MicAction::Unload(source_id))
    } else if sink_id.unicode_len() > 0 {
        (MicRemoval::UnloadingSink, MicAction::Unload(sink_id))
    } else {
        (MicRemoval::RemovingState, MicAction::RemoveState)
    }
}

fn found_id(found: Option<String>) -> (id: String)
    ensures
        match found {
            Some(f) => id == f,
            None => id@ == Seq::<char>::empty(),
        },
{
    match found {
        Some(f) => f,
        None => {
            proof {
                reveal_strlit("");
            }
            String::from_str("")
        },
    }
}

impl MicCreation {
    /// Whether this step expects `event`.
    pub fn expects(&self, event: &MicEvent) -> (r: bool)
        ensures
            r == creation_expects(*self, *event),
    {
        match self {
            MicCreation::Probing | MicCreation::Checking { .. } => matches!(event, MicEvent::Probed(..)),
            MicCreation::LoadingSink | MicCreation::LoadingSource { .. } => matches!(event, MicEvent::Loaded(..)),
            MicCreation::UndoingSink { .. } | MicCreation::UndoingSource { .. } => matches!(event, MicEvent::Unloaded(..)),
            MicCreation::Recording => matches!(event, MicEvent::Written(..)),
            MicCreation::Done(_) => false,
        }
    }

    /// One step of creating the virtual microphone of `config`: the source
    /// is probed; where it exists, nothing more. Otherwise the null sink is
    /// loaded, then the remap source (where that fails, the sink is
    /// unloaded again and the failure reported); the source is probed
    /// again, and where it is missing both modules are unloaded and the
    /// creation fails; else the state file records the two module ids. A
    /// failing probe, sink load or state write ends the creation with its
    /// error.
    pub fn next(self, config: &VirtualMicConfig, event: MicEvent) -> (r: (MicCreation, MicAction))
        requires
            creation_expects(self, event),
        ensures
            match (self, event) {
                (MicCreation::Probing, MicEvent::Probed(Err(e))) => r == (
                    MicCreation::Done(Err(e)),
                    MicAction::Finish,
                ),
                (MicCreation::Probing, MicEvent::Probed(Ok(found))) => if found {
                    r == (MicCreation::Done(Ok(false)), MicAction::Finish)
                } else {
                    r == (MicCreation::LoadingSink, MicAction::LoadSink)
                },
                (MicCreation::LoadingSink, MicEvent::Loaded(Err(e))) => r == (
                    MicCreation::Done(Err(e)),
                    MicAction::Finish,
                ),
                (MicCreation::LoadingSink, MicEvent::Loaded(Ok(id))) => r == (
                    MicCreation::LoadingSource { sink_id: id },
                    MicAction::LoadSource,
                ),
                (MicCreation::LoadingSource { sink_id }, MicEvent::Loaded(Err(e))) => r == (
                    MicCreation::UndoingSink { error: e },
                    MicAction::Unload(sink_id),
                ),
                (MicCreation::LoadingSource { sink_id }, MicEvent::Loaded(Ok(id))) => r == (
                    MicCreation::Checking { sink_id, source_id: id },
                    MicAction::ProbeSource,
                ),
                (MicCreation::UndoingSink { error }, MicEvent::Unloaded(_)) => r == (
                    MicCreation::Done(Err(error)),
                    MicAction::Finish,
                ),
                (MicCreation::Checking { .. }, MicEvent::Probed(Err(e))) => r == (
                    MicCreation::Done(Err(e)),
                    MicAction::Finish,
                ),
                (MicCreation::Checking { sink_id, source_id }, MicEvent::Probed(Ok(found))) => if found {
                    &&& r.0 == MicCreation::Recording
                    &&& r.1 matches MicAction::WriteState(t)
                    &&& t@ == state_text(sink_id@, source_id@, config.sink_name@, config.source_name@)
                } else {
                    &&& r.0 matches MicCreation::UndoingSource { sink_id: s, error: m }
                    &&& s == sink_id
                    &&& m@ == not_created_message(config.source_name@)
                    &&& r.1 == MicAction::Unload(source_id)
                },
                (MicCreation::UndoingSource { sink_id, error }, MicEvent::Unloaded(_)) => r == (
                    MicCreation::UndoingSink { error },
                    MicAction::Unload(sink_id),
                ),
                (MicCreation::Recording, MicEvent::Written(w)) => r == (
                    MicCreation::Done(
                        match w {
                            Ok(()) => Ok(true),
                            Err(e) => Err(e),
                        },
                    ),
                    MicAction::Finish,
                ),
                _ => true,
            },
    {
        match (self, event) {
            (MicCreation::Probing, MicEvent::Probed(Err(e))) => (MicCreation::Done(Err(e)), MicAction::Finish),
            (MicCreation::Probing, MicEvent::Probed(Ok(found))) => {
                if found {
                    (MicCreation::Done(Ok(false)), MicAction::Finish)
                } else {
                    (MicCreation::LoadingSink, MicAction::LoadSink)
                }
            },
            (MicCreation::LoadingSink, MicEvent::Loaded(Err(e))) => (
                MicCreation::Done(Err(e)),
                MicAction::Finish,
            ),
            (MicCreation::LoadingSink, MicEvent::Loaded(Ok(id))) => (
                MicCreation::LoadingSource { sink_id: id },
                MicAction::LoadSource,
            ),
            (MicCreation::LoadingSource { sink_id }, MicEvent::Loaded(Err(e))) => (
                MicCreation::UndoingSink { error: e },
                MicAction::Unload(sink_id),
            ),
            (MicCreation::LoadingSource { sink_id }, MicEvent::Loaded(Ok(id))) => (
                MicCreation::Checking { sink_id, source_id: id },
                MicAction::ProbeSource,
            ),
            (MicCreation::UndoingSink { error }, MicEvent::Unloaded(_)) => (
                MicCreation::Done(Err(error)),
                MicAction::Finish,
            ),
            (MicCreation::Checking { .. }, MicEvent::Probed(Err(e))) => (
                MicCreation::Done(Err(e)),
                MicAction::Finish,
            ),
            (MicCreation::Checking { sink_id, source_id }, MicEvent::Probed(Ok(found))) => {
                if found {
                    let text = virtual_mic_state_text(config, sink_id.as_str(), source_id.as_str());
                    (MicCreation::Recording, MicAction::WriteState(text))
                } else {
                    let message = String::from_str("created virtual mic but source not found: ").concat(
                        config.source_name.as_str(),
                    );
                    (MicCreation::UndoingSource { sink_id, error: message }, MicAction::Unload(source_id))
                }
            },
            (MicCreation::UndoingSource { sink_id, error }, MicEvent::Unloaded(_)) => (
                MicCreation::UndoingSink { error },
                MicAction::Unload(sink_id),
            ),
            (MicCreation::Recording, MicEvent::Written(w)) => (
                MicCreation::Done(
                    match w {
                        Ok(()) => Ok(true),
                        Err(e) => Err(e),
                    },
                ),
                MicAction::Finish,
            ),
            (state, _) => (state, MicAction::Finish),
        }
    }
}

impl MicRemoval {
    /// Whether this step expects `event`.
    pub fn expects(&self, event: &MicEvent) -> (r: bool)
        ensures
            r == removal_expects(*self, *event),
    {
        match self {
            MicRemoval::Reading => matches!(event, MicEvent::StateRead(..)),
            MicRemoval::FindingSink { .. } | MicRemoval::FindingSource { .. } => matches!(event, MicEvent::Found(..)),
            MicRemoval::UnloadingSource { .. } | MicRemoval::UnloadingSink => matches!(event, MicEvent::Unloaded(..)),
            MicRemoval::RemovingState => matches!(event, MicEvent::StateRemoved),
            MicRemoval::Checking => matches!(event, MicEvent::Probed(..)),
            MicRemoval::Done(_) => false,
        }
    }

    /// One step of removing the virtual microphone of `config`: the state
    /// file gives the two module ids (see `parse_virtual_mic_state`); an id
    /// it lacks is looked up in the module listing (the sink first). The
    /// source is unloaded, then the sink (an empty id is skipped), and a
    /// failure ends the removal with its error; then the state file goes
    /// and the source is probed: removal worked only where it is gone.
    pub fn next(self, config: &VirtualMicConfig, event: MicEvent) -> (r: (MicRemoval, MicAction))
        requires
            removal_expects(self, event),
        ensures
            match (self, event) {
                (MicRemoval::Reading, MicEvent::StateRead(text)) => {
                    let ids = state_ids(lines_of(text@));
                    if ids.0.len() == 0 {
                        r.0 matches MicRemoval::FindingSink { source_id: s } && s@ == ids.1 && r.1
                            == MicAction::FindSink
                    } else if ids.1.len() == 0 {
                        r.0 matches MicRemoval::FindingSource { sink_id: s } && s@ == ids.0 && r.1
                            == MicAction::FindSource
                    } else {
                        &&& r.1 matches MicAction::Unload(u)
                        &&& u@ == ids.1
                        &&& r.0 matches MicRemoval::UnloadingSource { sink_id: s }
                        &&& s@ == ids.0
                    }
                },
                (MicRemoval::FindingSink { source_id }, MicEvent::Found(f)) => {
                    let sink_id = match f {
                        Some(x) => x@,
                        None => Seq::<char>::empty(),
                    };
                    if source_id@.len() == 0 {
                        r.0 matches MicRemoval::FindingSource { sink_id: s } && s@ == sink_id && r.1
                            == MicAction::FindSource
                    } else {
                        &&& r.1 == MicAction::Unload(source_id)
                        &&& r.0 matches MicRemoval::UnloadingSource { sink_id: s }
                        &&& s@ == sink_id
                    }
                },
                (MicRemoval::FindingSource { sink_id }, MicEvent::Found(f)) => match f {
                    Some(x) => unload_phase(sink_id, x, r.0, r.1),
                    None => if sink_id@.len() > 0 {
                        r.0 == MicRemoval::UnloadingSink && r.1 == MicAction::Unload(sink_id)
                    } else {
                        r.0 == MicRemoval::RemovingState && r.1 == MicAction::RemoveState
                    },
                },
                (MicRemoval::UnloadingSource { sink_id }, MicEvent::Unloaded(u)) => match u {
                    Err(e) => r == (MicRemoval::Done(Err(e)), MicAction::Finish),
                    Ok(()) => if sink_id@.len() > 0 {
                        r.0 == MicRemoval::UnloadingSink && r.1 == MicAction::Unload(sink_id)
                    } else {
                        r.0 == MicRemoval::RemovingState && r.1 == MicAction::RemoveState
                    },
                },
                (MicRemoval::UnloadingSink, MicEvent::Unloaded(u)) => match u {
                    Err(e) => r == (MicRemoval::Done(Err(e)), MicAction::Finish),
                    Ok(()) => r == (MicRemoval::RemovingState, MicAction::RemoveState),
                },
                (MicRemoval::RemovingState, MicEvent::StateRemoved) => r == (
                    MicRemoval::Checking,
                    MicAction::ProbeSource,
                ),
                (MicRemoval::Checking, MicEvent::Probed(p)) => {
                    &&& r.1 == MicAction::Finish
                    &&& match p {
                        Err(e) => r.0 == MicRemoval::Done(Err(e)),
                        Ok(true) => r.0 matches MicRemoval::Done(Err(m)) && m@ == not_removed_message(
                            config.source_name@,
                        ),
                        Ok(false) => r.0 == MicRemoval::Done(Ok(())),
                    }
                },
                _ => true,
            },
    {
        match (self, event) {
            (MicRemoval::Reading, MicEvent::StateRead(text)) => {
                let (sink_id, source_id) = parse_virtual_mic_state(text.as_str());
                if sink_id.unicode_len() == 0 {
                    (MicRemoval::FindingSink { source_id }, MicAction::FindSink)
                } else if source_id.unicode_len() == 0 {
                    (MicRemoval::FindingSource { sink_id }, MicAction::FindSource)
                } else {
                    (MicRemoval::UnloadingSource { sink_id }, MicAction::Unload(source_id))
                }
            },
            (MicRemoval::FindingSink { source_id }, MicEvent::Found(f)) => {
                let sink_id = found_id(f);
                if source_id.unicode_len() == 0 {
                    (MicRemoval::FindingSource { sink_id }, MicAction::FindSource)
                } else {
                    (MicRemoval::UnloadingSource { sink_id }, MicAction::Unload(source_id))
                }
            },
            (MicRemoval::FindingSource { sink_id }, MicEvent::Found(f)) => {
                let source_id = found_id(f);
                unload_phase_step(sink_id, source_id)
            },
            (MicRemoval::UnloadingSource { sink_id }, MicEvent::Unloaded(u)) => match u {
                Err(e) => (MicRemoval::Done(Err(e)), MicAction::Finish),
                Ok(()) => {
                    if sink_id.unicode_len() > 0 {
                        (MicRemoval::UnloadingSink, MicAction::Unload(sink_id))
                    } else {
                        (MicRemoval::RemovingState, MicAction::RemoveState)
                    }
                },
            },
            (MicRemoval::UnloadingSink, MicEvent::Unloaded(u)) => match u {
                Err(e) => (MicRemoval::Done(Err(e)), MicAction::Finish),
                Ok(()) => (MicRemoval::RemovingState, MicAction::RemoveState),
            },
            (MicRemoval::RemovingState, MicEvent::StateRemoved) => (
                MicRemoval::Checking,
                MicAction::ProbeSource,
            ),
            (MicRemoval::Checking, MicEvent::Probed(p)) => {
                let outcome = match p {
                    Err(e) => Err(e),
                    Ok(true) => Err(
                        String::from_str("virtual mic still exists after remove: ").concat(
                            config.source_name.as_str(),
                        ),
                    ),
                    Ok(false) => Ok(()),
                };
                (MicRemoval::Done(outcome), MicAction::Finish)
            },
            (state, _) => (state, MicAction::Finish),
        }
    }
}

} // verus!
