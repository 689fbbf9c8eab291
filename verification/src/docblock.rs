//! A parser and mutator for leading doc blocks.
//!
//! A source file may begin with a `/* ... */` comment holding free-text
//! lines and `@key value` directive lines.  The block can be parsed,
//! directives can be replaced or inserted, text can be appended, and the
//! file can be printed back with the remainder untouched.

use crate::text::{
    is_wsp, is_wsp_char, lines_spec, split_lines, trim_spec, trim_start_rec, trim_start_str,
    trim_str, views_of,
};
use vstd::prelude::*;
use vstd::string::*;

verus! {

/// One parsed line of a doc block.
pub ghost enum LineModel {
    /// `@key`, with everything after the separating whitespace as value.
    Directive { key: Seq<char>, value: Option<Seq<char>> },
    /// Any other non-empty line.
    Text(Seq<char>),
}

/// One line of a doc block.
enum Line {
    Directive { key: String, value: Option<String> },
    Text(String),
}

impl View for Line {
    type V = LineModel;

    closed spec fn view(&self) -> LineModel {
        match self {
            Line::Directive { key, value } => LineModel::Directive {
                key: key@,
                value: match value {
                    Option::Some(v) => Option::Some(v@),
                    Option::None => Option::None,
                },
            },
            Line::Text(t) => LineModel::Text(t@),
        }
    }
}

/// The abstract content of a source file: its doc-block lines and the rest
/// of its text.
pub ghost struct SourceFileModel {
    pub doc_block: Seq<LineModel>,
    pub rest: Seq<char>,
}

/// A source file split into an optional leading doc block and the rest.
/// Doc-block directives can be mutated and the file printed back.
pub struct SourceFile {
    doc_block: Vec<Line>,
    /// Everything after the doc block, leading whitespace removed; the
    /// whole text when there is no block.
    pub rest: String,
}

impl View for SourceFile {
    type V = SourceFileModel;

    closed spec fn view(&self) -> SourceFileModel {
        SourceFileModel {
            doc_block: self.doc_block@.map_values(|l: Line| l@),
            rest: self.rest@,
        }
    }
}

/// Whether `c` can stand in a directive key.
pub open spec fn is_word(c: char) -> bool {
    ('a' <= c && c <= 'z') || ('A' <= c && c <= 'Z') || ('0' <= c && c <= '9') || c == '_'
}

/// The number of leading key characters of `s`.
pub open spec fn count_word(s: Seq<char>) -> int
    decreases s.len(),
{
    if s.len() > 0 && is_word(s[0]) {
        1 + count_word(s.drop_first())
    } else {
        0
    }
}

/// The number of leading whitespace characters of `s`.
pub open spec fn count_wsp(s: Seq<char>) -> int
    decreases s.len(),
{
    if s.len() > 0 && is_wsp(s[0]) {
        1 + count_wsp(s.drop_first())
    } else {
        0
    }
}

/// How one cleaned line parses: a directive needs `@`, a non-empty key of
/// word characters, then at least one whitespace character; everything
/// after the whitespace run is the value.  Anything else is text.
pub open spec fn parse_line_spec(l: Seq<char>) -> LineModel {
    if l.len() > 0 && l[0] == '@' {
        let k = count_word(l.skip(1));
        if k > 0 && 1 + k < l.len() && is_wsp(l[1 + k]) {
            let w = count_wsp(l.skip(1 + k));
            LineModel::Directive { key: l.subrange(1, 1 + k), value: Option::Some(l.skip(1 + k + w)) }
        } else {
            LineModel::Text(l)
        }
    } else {
        LineModel::Text(l)
    }
}

/// A raw block line cleaned: trimmed, leading `*` markers removed, then
/// trimmed at the start again.
pub open spec fn clean_line(l: Seq<char>) -> Seq<char> {
    trim_start_rec(strip_stars(trim_spec(l)))
}

/// `s` without its leading `*` characters.
pub open spec fn strip_stars(s: Seq<char>) -> Seq<char>
    decreases s.len(),
{
    if s.len() > 0 && s[0] == '*' {
        strip_stars(s.drop_first())
    } else {
        s
    }
}

/// The parsed lines of a block: each line cleaned, empty lines dropped.
pub open spec fn block_lines(ls: Seq<Seq<char>>) -> Seq<LineModel>
    decreases ls.len(),
{
    if ls.len() == 0 {
        Seq::empty()
    } else {
        block_lines(ls.drop_last()) + (if clean_line(ls.last()).len() == 0 {
            Seq::<LineModel>::empty()
        } else {
            seq![parse_line_spec(clean_line(ls.last()))]
        })
    }
}

/// The scan for the block opener: the first `/*` preceded on its own line
/// by whitespace only.  `clean` says whether everything since the last
/// line start was whitespace.
pub open spec fn find_open(s: Seq<char>, i: int, clean: bool) -> int
    decreases s.len() - i,
{
    if i < 0 || i >= s.len() {
        -1
    } else if clean && s[i] == '/' && i + 1 < s.len() && s[i + 1] == '*' {
        i
    } else {
        find_open(s, i + 1, if s[i] == '\n' {
            true
        } else {
            clean && is_wsp(s[i])
        })
    }
}

/// The position of the last `*/` in `s`, or `-1`.
pub open spec fn find_last_close(s: Seq<char>) -> int
    decreases s.len(),
{
    if s.len() < 2 {
        -1
    } else if s[s.len() - 2] == '*' && s[s.len() - 1] == '/' {
        s.len() - 2
    } else {
        find_last_close(s.drop_last())
    }
}

/// `s` without its trailing `*/` repetitions.
pub open spec fn strip_close(s: Seq<char>) -> Seq<char>
    decreases s.len(),
{
    if s.len() >= 2 && s[s.len() - 2] == '*' && s[s.len() - 1] == '/' {
        strip_close(s.take(s.len() - 2))
    } else {
        s
    }
}

/// Where the block content begins, given the opener position: after `/*`,
/// and after one further `*` when one follows and a closer still fits.
pub open spec fn content_start(s: Seq<char>, o: int, e: int) -> int {
    if o + 2 < s.len() && s[o + 2] == '*' && e >= o + 3 {
        o + 3
    } else {
        o + 2
    }
}

/// How a whole source text parses: the doc block between the opener and
/// the last closer, cleaned line by line, and the rest of the file with
/// leading whitespace removed.  A text without both markers has no block
/// and is kept whole.
pub open spec fn parse_spec(s: Seq<char>) -> SourceFileModel {
    let o = find_open(s, 0, true);
    let e = find_last_close(s);
    if o >= 0 && e >= o + 2 {
        let c = content_start(s, o, e);
        let doc_str = strip_close(s.subrange(c, e + 2));
        SourceFileModel {
            doc_block: block_lines(lines_spec(doc_str)),
            rest: trim_start_rec(s.skip(e + 2)),
        }
    } else {
        SourceFileModel { doc_block: Seq::empty(), rest: s }
    }
}

/// The first index holding a directive with this key, or `-1`.
pub open spec fn find_key(block: Seq<LineModel>, key: Seq<char>) -> int
    decreases block.len(),
{
    if block.len() == 0 {
        -1
    } else if (block[0] matches LineModel::Directive { key: k, .. } && k == key) {
        0
    } else {
        let rest = find_key(block.drop_first(), key);
        if rest < 0 {
            -1
        } else {
            rest + 1
        }
    }
}

/// One past the last index holding a directive, or `0` when none does.
pub open spec fn after_last_directive(block: Seq<LineModel>) -> int
    decreases block.len(),
{
    if block.len() == 0 {
        0
    } else if block.last() is Directive {
        block.len() as int
    } else {
        after_last_directive(block.drop_last())
    }
}

/// How setting a directive changes a block: a directive with the same key
/// is replaced in place; otherwise the new directive is inserted right
/// after the last directive (at the front when there is none), all other
/// ordering preserved.
pub open spec fn set_directive_spec(
    block: Seq<LineModel>,
    key: Seq<char>,
    value: Option<Seq<char>>,
) -> Seq<LineModel> {
    let new = LineModel::Directive { key, value };
    let i = find_key(block, key);
    if i >= 0 {
        block.update(i, new)
    } else {
        let p = after_last_directive(block);
        block.take(p) + seq![new] + block.skip(p)
    }
}

/// How one block line prints: a directive as `@key value`, trimmed, so a
/// missing or empty value leaves `@key`; a text line as itself.
pub open spec fn line_text(l: LineModel) -> Seq<char> {
    match l {
        LineModel::Directive { key, value } => trim_spec(
            "@"@ + key + " "@ + match value {
                Option::Some(v) => v,
                Option::None => Seq::<char>::empty(),
            },
        ),
        LineModel::Text(t) => t,
    }
}

/// The printed block body: every line under a ` * ` marker.
pub open spec fn block_text(block: Seq<LineModel>) -> Seq<char>
    decreases block.len(),
{
    if block.len() == 0 {
        Seq::empty()
    } else {
        block_text(block.drop_last()) + " * "@ + line_text(block.last()) + "\n"@
    }
}

/// How a whole file prints: the comment block when there is one, a blank
/// line, then the rest.
pub open spec fn to_source_spec(block: Seq<LineModel>, rest: Seq<char>) -> Seq<char> {
    if block.len() == 0 {
        rest
    } else {
        "/*\n"@ + block_text(block) + " */\n\n"@ + rest
    }
}

/// Leading word characters: the first `count_word(s)` characters are word
/// characters and the next one, when there is one, is not.
proof fn lemma_count_word(s: Seq<char>)
    ensures
        0 <= count_word(s) <= s.len(),
        forall|k: int| 0 <= k < count_word(s) ==> is_word(s[k]),
        count_word(s) < s.len() ==> !is_word(s[count_word(s)]),
    decreases s.len(),
{
    if s.len() > 0 && is_word(s[0]) {
        lemma_count_word(s.drop_first());
        assert forall|k: int| 0 <= k < count_word(s) implies is_word(s[k]) by {
            if k > 0 {
                assert(is_word(s.drop_first()[k - 1]));
            }
        }
    }
}

/// The length of any leading word run is `count_word`.
proof fn lemma_count_word_is(s: Seq<char>, j: int)
    requires
        0 <= j <= s.len(),
        forall|k: int| 0 <= k < j ==> is_word(s[k]),
        j < s.len() ==> !is_word(s[j]),
    ensures
        count_word(s) == j,
    decreases j,
{
    if j > 0 {
        lemma_count_word_is(s.drop_first(), j - 1);
    }
}

/// The length of any leading whitespace run is `count_wsp`.
proof fn lemma_count_wsp_is(s: Seq<char>, j: int)
    requires
        0 <= j <= s.len(),
        forall|k: int| 0 <= k < j ==> is_wsp(s[k]),
        j < s.len() ==> !is_wsp(s[j]),
    ensures
        count_wsp(s) == j,
    decreases j,
{
    if j > 0 {
        lemma_count_wsp_is(s.drop_first(), j - 1);
    }
}

/// Clean one raw block line.
fn clean_line_str<'a>(l: &'a str) -> (r: &'a str)
    ensures
        r@ == clean_line(l@),
{
    let t = trim_str(l);
    let n = t.unicode_len();
    let mut i: usize = 0;
    while i < n && t.get_char(i) == '*'
        invariant
            i <= n,
            n == t@.len(),
            forall|k: int| 0 <= k < i ==> t@[k] == '*',
        decreases n - i,
    {
        i = i + 1;
    }
    proof {
        lemma_strip_stars_at(t@, i as int);
        assert(t@.skip(i as int) =~= t@.subrange(i as int, n as int));
    }
    let stripped = t.substring_char(i, n);
    trim_start_str(stripped)
}

/// `strip_stars` removes exactly the leading run of `*`.
proof fn lemma_strip_stars_at(s: Seq<char>, i: int)
    requires
        0 <= i <= s.len(),
        forall|k: int| 0 <= k < i ==> s[k] == '*',
        i < s.len() ==> s[i] != '*',
    ensures
        strip_stars(s) == s.skip(i),
    decreases i,
{
    if i == 0 {
        assert(s.skip(0) =~= s);
    } else {
        lemma_strip_stars_at(s.drop_first(), i - 1);
        assert(s.drop_first().skip(i - 1) =~= s.skip(i));
    }
}

/// Parse one cleaned, non-empty line.
fn parse_line(l: &str) -> (r: Line)
    ensures
        r@ == parse_line_spec(l@),
{
    let n = l.unicode_len();
    if n == 0 || l.get_char(0) != '@' {
        return Line::Text(l.to_owned());
    }
    let mut i: usize = 1;
    while i < n && is_word_char(l.get_char(i))
        invariant
            1 <= i <= n,
            n == l@.len(),
            forall|k: int| 1 <= k < i ==> is_word(l@[k]),
        decreases n - i,
    {
        i = i + 1;
    }
    proof {
        let t = l@.skip(1);
        assert forall|k: int| 0 <= k < i - 1 implies is_word(t[k]) by {
            assert(t[k] == l@[k + 1]);
        }
        if i < n {
            assert(t[i - 1] == l@[i as int]);
        }
        lemma_count_word_is(t, i - 1);
    }
    if i == 1 || i >= n || !is_wsp_char(l.get_char(i)) {
        return Line::Text(l.to_owned());
    }
    let mut j: usize = i;
    while j < n && is_wsp_char(l.get_char(j))
        invariant
            i <= j <= n,
            n == l@.len(),
            forall|k: int| i <= k < j ==> is_wsp(l@[k]),
        decreases n - j,
    {
        j = j + 1;
    }
    proof {
        let t = l@.skip(i as int);
        assert forall|k: int| 0 <= k < j - i implies is_wsp(t[k]) by {
            assert(t[k] == l@[k + i]);
        }
        if j < n {
            assert(t[j - i] == l@[j as int]);
        }
        lemma_count_wsp_is(t, j - i);
    }
    let key = l.substring_char(1, i).to_owned();
    let value = l.substring_char(j, n).to_owned();
    proof {
        assert(key@ =~= l@.subrange(1, 1 + count_word(l@.skip(1))));
        assert(value@ =~= l@.skip(
            1 + count_word(l@.skip(1)) + count_wsp(l@.skip(1 + count_word(l@.skip(1)))),
        ));
    }
    Line::Directive { key, value: Option::Some(value) }
}

/// Whether `c` can stand in a directive key.
fn is_word_char(c: char) -> (b: bool)
    ensures
        b == is_word(c),
{
    ('a' <= c && c <= 'z') || ('A' <= c && c <= 'Z') || ('0' <= c && c <= '9') || c == '_'
}

impl SourceFile {
    /// Borrow the text after the doc block.
    pub fn rest_str(&self) -> (r: &str)
        ensures
            r@ == self@.rest,
    {
        self.rest.as_str()
    }

    /// Split a source text into its leading doc block, parsed line by
    /// line, and the rest of the file.
    pub fn from_source(source: &str) -> (r: SourceFile)
        ensures
            r@ == parse_spec(source@),
    {
        let n = source.unicode_len();
        // The block opener: the first `/*` preceded on its line by
        // whitespace only.
        let mut i: usize = 0;
        let mut clean = true;
        let mut found_open = false;
        while i < n && !found_open
            invariant
                i <= n,
                n == source@.len(),
                !found_open ==> find_open(source@, 0, true) == find_open(
                    source@,
                    i as int,
                    clean,
                ),
                found_open ==> i + 2 <= n && find_open(source@, 0, true) == i as int,
            decreases n - i + (if found_open {
                0int
            } else {
                1int
            }),
        {
            let c = source.get_char(i);
            if clean && c == '/' && i + 1 < n && source.get_char(i + 1) == '*' {
                found_open = true;
            } else {
                clean = if c == '\n' {
                    true
                } else {
                    clean && is_wsp_char(c)
                };
                i = i + 1;
            }
        }
        if !found_open {
            proof {
                assert(find_open(source@, i as int, clean) == -1);
                assert(Seq::<Line>::empty().map_values(|l: Line| l@) =~= Seq::<
                    LineModel,
                >::empty());
            }
            return SourceFile { doc_block: Vec::new(), rest: source.to_owned() };
        }
        let o: usize = i;
        // The last closer.
        let mut j: usize = n;
        let mut found_close = false;
        proof {
            assert(source@.subrange(0, n as int) =~= source@);
        }
        while j >= 2 && !found_close
            invariant
                j <= n,
                n == source@.len(),
                !found_close ==> find_last_close(source@) == find_last_close(
                    source@.subrange(0, j as int),
                ),
                found_close ==> j >= 2 && find_last_close(source@) == j - 2,
            decreases j + (if found_close {
                0int
            } else {
                1int
            }),
        {
            if source.get_char(j - 2) == '*' && source.get_char(j - 1) == '/' {
                proof {
                    let cur = source@.subrange(0, j as int);
                    assert(cur[j - 2] == source@[j - 2] && cur[j - 1] == source@[j - 1]);
                    assert(find_last_close(cur) == j - 2);
                }
                found_close = true;
            } else {
                proof {
                    let cur = source@.subrange(0, j as int);
                    assert(cur[j - 2] == source@[j - 2] && cur[j - 1] == source@[j - 1]);
                    assert(cur.drop_last() =~= source@.subrange(0, (j - 1) as int));
                }
                j = j - 1;
            }
        }
        if !found_close || (j - 2) < o + 2 {
            proof {
                if !found_close {
                    assert(find_last_close(source@.subrange(0, j as int)) == -1);
                }
                assert(Seq::<Line>::empty().map_values(|l: Line| l@) =~= Seq::<
                    LineModel,
                >::empty());
            }
            return SourceFile { doc_block: Vec::new(), rest: source.to_owned() };
        }
        let e: usize = j - 2;
        // The content start: skip a third `*` when the block still closes.
        let c_start: usize = if o + 2 < n && source.get_char(o + 2) == '*' && e >= o + 3 {
            o + 3
        } else {
            o + 2
        };
        proof {
            assert(c_start as int == content_start(source@, o as int, e as int));
        }
        let block = source.substring_char(c_start, e + 2);
        // Strip the trailing `*/` repetitions.
        let bn = block.unicode_len();
        let mut m: usize = bn;
        proof {
            assert(block@.subrange(0, bn as int) =~= block@);
        }
        while m >= 2 && block.get_char(m - 2) == '*' && block.get_char(m - 1) == '/'
            invariant
                m <= bn,
                bn == block@.len(),
                strip_close(block@) == strip_close(block@.subrange(0, m as int)),
            decreases m,
        {
            proof {
                let cur = block@.subrange(0, m as int);
                assert(cur[m - 2] == block@[m - 2] && cur[m - 1] == block@[m - 1]);
                assert(cur.take(m - 2) =~= block@.subrange(0, (m - 2) as int));
            }
            m = m - 2;
        }
        let doc_str = block.substring_char(0, m);
        proof {
            let cur = block@.subrange(0, m as int);
            assert(doc_str@ =~= cur);
            assert(strip_close(block@) == cur);
        }
        // Parse the block line by line.
        let ls = split_lines(doc_str);
        let ghost v = views_of(ls@);
        let mut doc_block: Vec<Line> = Vec::new();
        let mut k: usize = 0;
        proof {
            assert(v.subrange(0, 0) =~= Seq::<Seq<char>>::empty());
            assert(doc_block@.map_values(|l: Line| l@) =~= Seq::<LineModel>::empty());
        }
        while k < ls.len()
            invariant
                k <= ls@.len(),
                v == views_of(ls@),
                v.len() == ls@.len(),
                doc_block@.map_values(|l: Line| l@) == block_lines(v.subrange(0, k as int)),
            decreases ls@.len() - k,
        {
            let cleaned = clean_line_str(ls[k]);
            proof {
                assert(v[k as int] == ls@[k as int]@);
            }
            if !cleaned.is_empty() {
                let line = parse_line(cleaned);
                proof {
                    let pre = v.subrange(0, k as int);
                    let post = v.subrange(0, (k + 1) as int);
                    assert(post.drop_last() =~= pre);
                    assert(post.last() == v[k as int]);
                    assert(doc_block@.push(line).map_values(|l: Line| l@) =~= doc_block@.map_values(
                        |l: Line| l@,
                    ).push(line@));
                    assert(doc_block@.map_values(|l: Line| l@).push(line@) =~= block_lines(post));
                }
                doc_block.push(line);
            } else {
                proof {
                    let pre = v.subrange(0, k as int);
                    let post = v.subrange(0, (k + 1) as int);
                    assert(post.drop_last() =~= pre);
                    assert(post.last() == v[k as int]);
                    assert(block_lines(post) =~= block_lines(pre));
                }
            }
            k = k + 1;
        }
        proof {
            assert(v.subrange(0, v.len() as int) =~= v);
        }
        let rest = trim_start_str(source.substring_char(e + 2, n)).to_owned();
        proof {
            assert(source@.subrange((e + 2) as int, n as int) =~= source@.skip(e + 2));
        }
        SourceFile { doc_block, rest }
    }

    /// Set a doc-block directive: replace the first directive with this
    /// key, or insert a new one right after the last directive so that
    /// directives stay grouped.
    pub fn set_directive(&mut self, key: &str, value: Option<&str>)
        ensures
            final(self)@.doc_block == set_directive_spec(
                old(self)@.doc_block,
                key@,
                match value {
                    Option::Some(v) => Option::Some(v@),
                    Option::None => Option::None,
                },
            ),
            final(self)@.rest == old(self)@.rest,
    {
        let ghost bm = self@.doc_block;
        let ghost vmodel: Option<Seq<char>> = match value {
            Option::Some(v) => Option::Some(v@),
            Option::None => Option::None,
        };
        let new_value: Option<String> = match value {
            Option::Some(v) => Option::Some(v.to_owned()),
            Option::None => Option::None,
        };
        let new_line = Line::Directive { key: key.to_owned(), value: new_value };
        proof {
            assert(new_line@ == (LineModel::Directive { key: key@, value: vmodel }));
        }
        // Find the first directive with this key.
        let mut i: usize = 0;
        let mut found = false;
        proof {
            assert(bm.skip(0) =~= bm);
        }
        while i < self.doc_block.len() && !found
            invariant
                i <= self.doc_block@.len(),
                bm == self.doc_block@.map_values(|l: Line| l@),
                bm.len() == self.doc_block@.len(),
                !found ==> find_key(bm, key@) == if find_key(bm.skip(i as int), key@) < 0 {
                    -1
                } else {
                    find_key(bm.skip(i as int), key@) + i
                },
                found ==> 0 <= i < bm.len() && find_key(bm, key@) == i as int,
            decreases self.doc_block@.len() - i + (if found {
                0int
            } else {
                1int
            }),
        {
            let is_match = match &self.doc_block[i] {
                Line::Directive { key: k, .. } => crate::text::str_eq(k.as_str(), key),
                Line::Text(_) => false,
            };
            proof {
                let tail = bm.skip(i as int);
                assert(tail[0] == bm[i as int]);
                assert(bm[i as int] == self.doc_block@[i as int]@);
                assert(tail.drop_first() =~= bm.skip(i as int + 1));
            }
            if is_match {
                found = true;
            } else {
                i = i + 1;
            }
        }
        if found {
            self.doc_block[i] = new_line;
            proof {
                assert(final(self).doc_block@.map_values(|l: Line| l@) =~= bm.update(
                    find_key(bm, key@),
                    new_line@,
                ));
            }
            return;
        }
        proof {
            assert(bm.skip(bm.len() as int) =~= Seq::<LineModel>::empty());
            assert(find_key(bm, key@) == -1);
        }
        // No such key: insert after the last directive.
        let mut p: usize = self.doc_block.len();
        let mut found_dir = false;
        proof {
            assert(bm.take(bm.len() as int) =~= bm);
        }
        while p > 0 && !found_dir
            invariant
                p <= self.doc_block@.len(),
                bm == self.doc_block@.map_values(|l: Line| l@),
                bm.len() == self.doc_block@.len(),
                !found_dir ==> after_last_directive(bm) == after_last_directive(
                    bm.take(p as int),
                ),
                found_dir ==> after_last_directive(bm) == p as int,
            decreases p + (if found_dir {
                0int
            } else {
                1int
            }),
        {
            let is_dir = match &self.doc_block[p - 1] {
                Line::Directive { .. } => true,
                Line::Text(_) => false,
            };
            proof {
                let cur = bm.take(p as int);
                assert(cur.last() == bm[p - 1]);
                assert(bm[p - 1] == self.doc_block@[p - 1]@);
                assert(cur.drop_last() =~= bm.take(p as int - 1));
            }
            if is_dir {
                found_dir = true;
            } else {
                p = p - 1;
            }
        }
        proof {
            if !found_dir {
                assert(bm.take(0) =~= Seq::<LineModel>::empty());
            }
            assert(after_last_directive(bm) == p as int);
        }
        self.doc_block.insert(p, new_line);
        proof {
            assert(final(self).doc_block@.map_values(|l: Line| l@) =~= bm.take(p as int) + seq![
                new_line@,
            ] + bm.skip(p as int));
        }
    }

    /// Append free text to the doc block, one `Text` line per input line.
    pub fn add_text(&mut self, text: &str)
        ensures
            final(self)@.doc_block == old(self)@.doc_block + lines_spec(text@).map_values(
                |t: Seq<char>| LineModel::Text(t),
            ),
            final(self)@.rest == old(self)@.rest,
    {
        let ghost bm = self@.doc_block;
        let ls = split_lines(text);
        let ghost v = views_of(ls@);
        let mut i: usize = 0;
        proof {
            assert(v.subrange(0, 0) =~= Seq::<Seq<char>>::empty());
            assert(bm + v.subrange(0, 0).map_values(|t: Seq<char>| LineModel::Text(t)) =~= bm);
        }
        while i < ls.len()
            invariant
                i <= ls@.len(),
                v == views_of(ls@),
                v.len() == ls@.len(),
                self.doc_block@.map_values(|l: Line| l@) == bm + v.subrange(0, i as int).map_values(
                    |t: Seq<char>| LineModel::Text(t),
                ),
                self.rest@ == old(self).rest@,
            decreases ls@.len() - i,
        {
            let line = Line::Text(ls[i].to_owned());
            proof {
                let pre = v.subrange(0, i as int);
                let post = v.subrange(0, (i + 1) as int);
                assert(v[i as int] == ls@[i as int]@);
                assert(line@ == LineModel::Text(v[i as int]));
                assert(self.doc_block@.push(line).map_values(|l: Line| l@)
                    =~= self.doc_block@.map_values(|l: Line| l@).push(line@));
                assert(bm + pre.map_values(|t: Seq<char>| LineModel::Text(t)) + seq![line@] =~= bm
                    + post.map_values(|t: Seq<char>| LineModel::Text(t)));
            }
            self.doc_block.push(line);
            i = i + 1;
        }
        proof {
            assert(v.subrange(0, v.len() as int) =~= v);
        }
    }

    /// Print the file back: the comment block when there is one, then the
    /// rest.
    pub fn to_source(&self) -> (r: String)
        ensures
            r@ == to_source_spec(self@.doc_block, self@.rest),
    {
        let ghost bm = self@.doc_block;
        if self.doc_block.len() == 0 {
            return self.rest.clone();
        }
        let mut r = String::from_str("/*\n");
        let mut i: usize = 0;
        proof {
            assert(bm.subrange(0, 0) =~= Seq::<LineModel>::empty());
        }
        while i < self.doc_block.len()
            invariant
                i <= self.doc_block@.len(),
                bm == self.doc_block@.map_values(|l: Line| l@),
                bm.len() == self.doc_block@.len(),
                r@ == "/*\n"@ + block_text(bm.subrange(0, i as int)),
            decreases self.doc_block@.len() - i,
    {
            r.append(" * ");
            match &self.doc_block[i] {
                Line::Text(t) => {
                    r.append(t.as_str());
                },
                Line::Directive { key, value } => {
                    let mut d = String::from_str("@");
                    d.append(key.as_str());
                    d.append(" ");
                    match value {
                        Option::Some(v) => d.append(v.as_str()),
                        Option::None => {},
                    }
                    let trimmed = trim_str(d.as_str());
                    r.append(trimmed);
                },
            }
            r.append("\n");
            proof {
                let pre = bm.subrange(0, i as int);
                let post = bm.subrange(0, (i + 1) as int);
                assert(post.drop_last() =~= pre);
                assert(post.last() == bm[i as int]);
                assert(bm[i as int] == self.doc_block@[i as int]@);
                match self.doc_block@[i as int]@ {
                    LineModel::Directive { key, value } => {
                        let raw = "@"@ + key + " "@ + match value {
                            Option::Some(v) => v,
                            Option::None => Seq::<char>::empty(),
                        };
                        assert(line_text(bm[i as int]) == trim_spec(raw));
                    },
                    LineModel::Text(_) => {},
                }
                assert(r@ =~= "/*\n"@ + block_text(post));
            }
            i = i + 1;
        }
        proof {
            assert(bm.subrange(0, bm.len() as int) =~= bm);
        }
        r.append(" */\n\n");
        r.append(self.rest.as_str());
        proof {
            assert(r@ =~= to_source_spec(bm, self@.rest));
        }
        r
    }
}

} // verus!
