//! Character-sequence utilities shared by the documentation formatter, the
//! emitters and the doc-block parser: whitespace trimming, line splitting
//! and joining, and leading-space counting.

use vstd::prelude::*;
use vstd::string::*;

verus! {

/// The whitespace characters this crate recognises.
pub open spec fn is_wsp(c: char) -> bool {
    c == ' ' || c == '\t' || c == '\n' || c == '\r'
}

/// Whether a text consists of whitespace only (an empty text is blank).
pub open spec fn is_blank(s: Seq<char>) -> bool {
    forall|k: int| 0 <= k < s.len() ==> is_wsp(s[k])
}

/// `s` without leading whitespace.
pub open spec fn trim_start_rec(s: Seq<char>) -> Seq<char>
    decreases s.len(),
{
    if s.len() > 0 && is_wsp(s[0]) {
        trim_start_rec(s.drop_first())
    } else {
        s
    }
}

/// `s` without trailing whitespace.
pub open spec fn trim_end_rec(s: Seq<char>) -> Seq<char>
    decreases s.len(),
{
    if s.len() > 0 && is_wsp(s.last()) {
        trim_end_rec(s.drop_last())
    } else {
        s
    }
}

/// `s` without leading and trailing whitespace.
pub open spec fn trim_spec(s: Seq<char>) -> Seq<char> {
    trim_end_rec(trim_start_rec(s))
}

/// The first index of `c` in `s`, or `-1` when `c` does not occur.
pub open spec fn find_char(s: Seq<char>, c: char) -> int
    decreases s.len(),
{
    if s.len() == 0 {
        -1
    } else if s[0] == c {
        0
    } else {
        let rest = find_char(s.drop_first(), c);
        if rest < 0 {
            -1
        } else {
            rest + 1
        }
    }
}

/// `s` split at every newline, the piece after a final newline dropped when
/// it is empty: the line structure of a text.
pub open spec fn lines_spec(s: Seq<char>) -> Seq<Seq<char>>
    decreases s.len(),
    via lines_spec_dec
{
    if s.len() == 0 {
        Seq::empty()
    } else {
        let i = find_char(s, '\n');
        if i < 0 {
            seq![s]
        } else {
            seq![s.take(i)] + lines_spec(s.skip(i + 1))
        }
    }
}

#[via_fn]
proof fn lines_spec_dec(s: Seq<char>) {
    if s.len() > 0 {
        lemma_find_char(s, '\n');
    }
}

/// Pieces joined with a newline between each adjacent pair.
pub open spec fn join_lines(ls: Seq<Seq<char>>) -> Seq<char>
    decreases ls.len(),
{
    if ls.len() == 0 {
        Seq::empty()
    } else if ls.len() == 1 {
        ls[0]
    } else {
        ls[0] + seq!['\n'] + join_lines(ls.drop_first())
    }
}

/// `n` spaces.
pub open spec fn spaces(n: nat) -> Seq<char>
    decreases n,
{
    if n == 0 {
        Seq::empty()
    } else {
        spaces((n - 1) as nat) + seq![' ']
    }
}

/// The number of leading `' '` characters of `s`.
pub open spec fn count_spaces(s: Seq<char>) -> int
    decreases s.len(),
{
    if s.len() > 0 && s[0] == ' ' {
        1 + count_spaces(s.drop_first())
    } else {
        0
    }
}

/// Whether `s` contains no newline.
pub open spec fn no_nl(s: Seq<char>) -> bool {
    forall|k: int| 0 <= k < s.len() ==> s[k] != '\n'
}

/// The views of a sequence of borrowed strings.
pub open spec fn views_of(v: Seq<&str>) -> Seq<Seq<char>> {
    v.map_values(|t: &str| t@)
}

/// `trim_start_rec` removes exactly the leading whitespace run.
pub proof fn lemma_trim_start_at(s: Seq<char>, i: int)
    requires
        0 <= i <= s.len(),
        forall|k: int| 0 <= k < i ==> is_wsp(s[k]),
        i < s.len() ==> !is_wsp(s[i]),
    ensures
        trim_start_rec(s) == s.skip(i),
    decreases i,
{
    if i == 0 {
        assert(s.skip(0) =~= s);
    } else {
        lemma_trim_start_at(s.drop_first(), i - 1);
        assert(s.drop_first().skip(i - 1) =~= s.skip(i));
    }
}

/// `trim_end_rec` removes exactly the trailing whitespace run.
pub proof fn lemma_trim_end_at(s: Seq<char>, j: int)
    requires
        0 <= j <= s.len(),
        forall|k: int| j <= k < s.len() ==> is_wsp(s[k]),
        j > 0 ==> !is_wsp(s[j - 1]),
    ensures
        trim_end_rec(s) == s.take(j),
    decreases s.len(),
{
    if s.len() == 0 {
        assert(s.take(0) =~= s);
    } else if j == s.len() {
        assert(s.take(j) =~= s);
    } else {
        assert(is_wsp(s.last()));
        lemma_trim_end_at(s.drop_last(), j);
        assert(s.drop_last().take(j) =~= s.take(j));
    }
}

/// Leading spaces: the first `count_spaces(s)` characters are spaces and the
/// next one, when there is one, is not.
pub proof fn lemma_count_spaces(s: Seq<char>)
    ensures
        0 <= count_spaces(s) <= s.len(),
        forall|k: int| 0 <= k < count_spaces(s) ==> s[k] == ' ',
        count_spaces(s) < s.len() ==> s[count_spaces(s)] != ' ',
    decreases s.len(),
{
    if s.len() > 0 && s[0] == ' ' {
        lemma_count_spaces(s.drop_first());
        assert forall|k: int| 0 <= k < count_spaces(s) implies s[k] == ' ' by {
            if k > 0 {
                assert(s.drop_first()[k - 1] == ' ');
            }
        }
    }
}

/// Conversely, the length of any leading space run is `count_spaces`.
pub proof fn lemma_count_spaces_is(s: Seq<char>, j: int)
    requires
        0 <= j <= s.len(),
        forall|k: int| 0 <= k < j ==> s[k] == ' ',
        j < s.len() ==> s[j] != ' ',
    ensures
        count_spaces(s) == j,
    decreases j,
{
    if j == 0 {
    } else {
        lemma_count_spaces_is(s.drop_first(), j - 1);
    }
}

/// `spaces(n)` has length `n` and holds spaces only.
pub proof fn lemma_spaces(n: nat)
    ensures
        spaces(n).len() == n,
        forall|k: int| 0 <= k < n ==> spaces(n)[k] == ' ',
    decreases n,
{
    if n > 0 {
        lemma_spaces((n - 1) as nat);
    }
}

/// `find_char` returns the position of the first occurrence.
pub proof fn lemma_find_char_is(s: Seq<char>, c: char, j: int)
    requires
        0 <= j <= s.len(),
        forall|k: int| 0 <= k < j ==> s[k] != c,
        j < s.len() ==> s[j] == c,
    ensures
        find_char(s, c) == if j < s.len() {
            j
        } else {
            -1
        },
    decreases j,
{
    if s.len() == 0 {
    } else if j == 0 {
    } else {
        lemma_find_char_is(s.drop_first(), c, j - 1);
    }
}

/// No line produced by `lines_spec` contains a newline.
pub proof fn lemma_lines_no_nl(s: Seq<char>)
    ensures
        forall|k: int| 0 <= k < lines_spec(s).len() ==> no_nl(#[trigger] lines_spec(s)[k]),
    decreases s.len(),
{
    if s.len() == 0 {
    } else {
        let i = find_char(s, '\n');
        lemma_find_char(s, '\n');
        if i < 0 {
        } else {
            lemma_lines_no_nl(s.skip(i + 1));
            assert forall|k: int| 0 <= k < lines_spec(s).len() implies no_nl(
                #[trigger] lines_spec(s)[k],
            ) by {
                if k > 0 {
                    assert(lines_spec(s)[k] == lines_spec(s.skip(i + 1))[k - 1]);
                }
            }
        }
    }
}

/// `find_char` finds an occurrence and nothing earlier.
pub proof fn lemma_find_char(s: Seq<char>, c: char)
    ensures
        find_char(s, c) >= 0 ==> find_char(s, c) < s.len() && s[find_char(s, c)] == c,
        forall|k: int| 0 <= k < find_char(s, c) ==> s[k] != c,
        find_char(s, c) < 0 ==> forall|k: int| 0 <= k < s.len() ==> s[k] != c,
    decreases s.len(),
{
    if s.len() == 0 {
    } else if s[0] == c {
    } else {
        lemma_find_char(s.drop_first(), c);
        let rest = find_char(s.drop_first(), c);
        if rest >= 0 {
            assert(find_char(s, c) == rest + 1);
            assert(s[rest + 1] == s.drop_first()[rest]);
            assert forall|k: int| 0 <= k < find_char(s, c) implies s[k] != c by {
                if k > 0 {
                    assert(s[k] == s.drop_first()[k - 1]);
                }
            }
        } else {
            assert forall|k: int| 0 <= k < s.len() implies s[k] != c by {
                if k > 0 {
                    assert(s[k] == s.drop_first()[k - 1]);
                }
            }
        }
    }
}

/// Appending one more piece extends a join by a newline and the piece.
pub proof fn lemma_join_push(ls: Seq<Seq<char>>, x: Seq<char>)
    requires
        ls.len() > 0,
    ensures
        join_lines(ls.push(x)) == join_lines(ls) + seq!['\n'] + x,
    decreases ls.len(),
{
    if ls.len() == 1 {
        let p = ls.push(x);
        assert(p.drop_first() =~= seq![x]);
        assert(p[0] == ls[0]);
        assert(join_lines(seq![x]) == seq![x][0]);
        assert(seq![x][0] == x);
        assert(join_lines(p) == ls[0] + seq!['\n'] + x);
    } else {
        lemma_join_push(ls.drop_first(), x);
        assert(ls.push(x).drop_first() =~= ls.drop_first().push(x));
        let p = ls.push(x);
        assert(join_lines(p) == p[0] + seq!['\n'] + join_lines(p.drop_first()));
        assert(ls[0] + seq!['\n'] + (join_lines(ls.drop_first()) + seq!['\n'] + x) =~= (ls[0]
            + seq!['\n'] + join_lines(ls.drop_first())) + seq!['\n'] + x);
    }
}

/// Splitting a join recovers the pieces, except that a final empty piece is
/// dropped (a text ending in a newline has no empty last line).
pub proof fn lemma_lines_join(ls: Seq<Seq<char>>)
    requires
        ls.len() > 0,
        forall|k: int| 0 <= k < ls.len() ==> no_nl(#[trigger] ls[k]),
    ensures
        lines_spec(join_lines(ls)) == if ls.last().len() == 0 {
            ls.drop_last()
        } else {
            ls
        },
    decreases ls.len(),
{
    if ls.len() == 1 {
        let p = ls[0];
        if p.len() == 0 {
            assert(lines_spec(join_lines(ls)) =~= ls.drop_last());
        } else {
            lemma_find_char_is(p, '\n', p.len() as int);
            assert(lines_spec(p) =~= seq![p]);
            assert(ls =~= seq![p]);
        }
    } else {
        let s = join_lines(ls);
        let p = ls[0];
        let rest = join_lines(ls.drop_first());
        assert(s == p + seq!['\n'] + rest);
        assert forall|k: int| 0 <= k < p.len() implies s[k] != '\n' by {
            assert(s[k] == p[k]);
        }
        assert(s[p.len() as int] == '\n');
        lemma_find_char_is(s, '\n', p.len() as int);
        assert(s.take(p.len() as int) =~= p);
        assert(s.skip(p.len() as int + 1) =~= rest);
        lemma_lines_join(ls.drop_first());
        assert(ls.drop_first().last() == ls.last());
        if ls.last().len() == 0 {
            assert(lines_spec(s) =~= seq![p] + ls.drop_first().drop_last());
            assert(seq![p] + ls.drop_first().drop_last() =~= ls.drop_last());
        } else {
            assert(lines_spec(s) =~= seq![p] + ls.drop_first());
            assert(seq![p] + ls.drop_first() =~= ls);
        }
    }
}

/// Whether `c` is whitespace.
pub fn is_wsp_char(c: char) -> (b: bool)
    ensures
        b == is_wsp(c),
{
    c == ' ' || c == '\t' || c == '\n' || c == '\r'
}

/// Whether two texts hold the same characters.
pub fn str_eq(a: &str, b: &str) -> (r: bool)
    ensures
        r == (a@ == b@),
{
    let na = a.unicode_len();
    let nb = b.unicode_len();
    if na != nb {
        return false;
    }
    let mut i: usize = 0;
    while i < na
        invariant
            i <= na,
            na == a@.len(),
            na == b@.len(),
            forall|k: int| 0 <= k < i ==> a@[k] == b@[k],
        decreases na - i,
    {
        if a.get_char(i) != b.get_char(i) {
            return false;
        }
        i = i + 1;
    }
    proof {
        assert(a@ =~= b@);
    }
    true
}

/// Whether `s` is whitespace only.
pub fn is_blank_str(s: &str) -> (b: bool)
    ensures
        b == is_blank(s@),
{
    let n = s.unicode_len();
    let mut i: usize = 0;
    while i < n
        invariant
            i <= n,
            n == s@.len(),
            forall|k: int| 0 <= k < i ==> is_wsp(s@[k]),
        decreases n - i,
    {
        if !is_wsp_char(s.get_char(i)) {
            return false;
        }
        i = i + 1;
    }
    true
}

/// `s` without leading and trailing whitespace.
pub fn trim_str<'a>(s: &'a str) -> (r: &'a str)
    ensures
        r@ == trim_spec(s@),
{
    let n = s.unicode_len();
    let mut i: usize = 0;
    while i < n && is_wsp_char(s.get_char(i))
        invariant
            i <= n,
            n == s@.len(),
            forall|k: int| 0 <= k < i ==> is_wsp(s@[k]),
        decreases n - i,
    {
        i = i + 1;
    }
    proof {
        lemma_trim_start_at(s@, i as int);
    }
    let mut j: usize = n;
    while j > i && is_wsp_char(s.get_char(j - 1))
        invariant
            i <= j <= n,
            n == s@.len(),
            forall|k: int| j <= k < n ==> is_wsp(s@[k]),
        decreases j,
    {
        j = j - 1;
    }
    proof {
        let t = s@.skip(i as int);
        if j == i {
            lemma_trim_end_at(t, 0);
        } else {
            assert(!is_wsp(t[j - i - 1]));
            lemma_trim_end_at(t, j - i);
        }
        assert(t.take(j - i) =~= s@.subrange(i as int, j as int));
    }
    s.substring_char(i, j)
}

/// `s` without leading whitespace.
pub fn trim_start_str<'a>(s: &'a str) -> (r: &'a str)
    ensures
        r@ == trim_start_rec(s@),
{
    let n = s.unicode_len();
    let mut i: usize = 0;
    while i < n && is_wsp_char(s.get_char(i))
        invariant
            i <= n,
            n == s@.len(),
            forall|k: int| 0 <= k < i ==> is_wsp(s@[k]),
        decreases n - i,
    {
        i = i + 1;
    }
    proof {
        lemma_trim_start_at(s@, i as int);
        assert(s@.skip(i as int) =~= s@.subrange(i as int, n as int));
    }
    s.substring_char(i, n)
}

/// The number of leading spaces of `s`.
pub fn leading_spaces(s: &str) -> (r: usize)
    ensures
        r as int == count_spaces(s@),
{
    let n = s.unicode_len();
    let mut i: usize = 0;
    while i < n && s.get_char(i) == ' '
        invariant
            i <= n,
            n == s@.len(),
            forall|k: int| 0 <= k < i ==> s@[k] == ' ',
        decreases n - i,
    {
        i = i + 1;
    }
    proof {
        lemma_count_spaces_is(s@, i as int);
    }
    i
}

/// A text of `n` spaces.
pub fn spaces_str(n: usize) -> (r: String)
    ensures
        r@ == spaces(n as nat),
{
    let mut r = String::new();
    let mut i: usize = 0;
    while i < n
        invariant
            i <= n,
            r@ == spaces(i as nat),
        decreases n - i,
    {
        r.append(" ");
        proof {
            reveal_strlit(" ");
            assert(" "@ =~= seq![' ']);
        }
        i = i + 1;
    }
    r
}

/// `s` split into its lines.
pub fn split_lines<'a>(s: &'a str) -> (r: Vec<&'a str>)
    ensures
        views_of(r@) == lines_spec(s@),
        r@.len() == lines_spec(s@).len(),
        forall|k: int| 0 <= k < r@.len() ==> (#[trigger] r@[k])@ == lines_spec(s@)[k],
{
    let n = s.unicode_len();
    let mut r: Vec<&'a str> = Vec::new();
    proof {
        assert(views_of(r@) =~= Seq::<Seq<char>>::empty());
        assert(s@.skip(0) =~= s@);
        assert(views_of(r@) + lines_spec(s@) =~= lines_spec(s@));
    }
    let mut start: usize = 0;
    let mut i: usize = 0;
    while i < n
        invariant
            start <= i <= n,
            n == s@.len(),
            forall|k: int| start <= k < i ==> s@[k] != '\n',
            lines_spec(s@) == views_of(r@) + lines_spec(s@.skip(start as int)),
        decreases n - i,
    {
        if s.get_char(i) == '\n' {
            let piece = s.substring_char(start, i);
            proof {
                let t = s@.skip(start as int);
                assert forall|k: int| 0 <= k < i - start implies t[k] != '\n' by {
                    assert(t[k] == s@[start + k]);
                }
                assert(t[i - start] == '\n');
                lemma_find_char_is(t, '\n', i - start);
                assert(t.take(i - start) =~= s@.subrange(start as int, i as int));
                assert(t.skip(i - start + 1) =~= s@.skip(i + 1));
                assert(lines_spec(t) == seq![piece@] + lines_spec(s@.skip(i + 1)));
                assert(views_of(r@.push(piece)) =~= views_of(r@) + seq![piece@]);
                assert(views_of(r@) + (seq![piece@] + lines_spec(s@.skip(i + 1))) =~= (views_of(r@)
                    + seq![piece@]) + lines_spec(s@.skip(i + 1)));
            }
            r.push(piece);
            start = i + 1;
        }
        i = i + 1;
    }
    if start < n {
        let piece = s.substring_char(start, n);
        proof {
            let t = s@.skip(start as int);
            assert forall|k: int| 0 <= k < t.len() implies t[k] != '\n' by {
                assert(t[k] == s@[start + k]);
            }
            lemma_find_char_is(t, '\n', t.len() as int);
            assert(t =~= s@.subrange(start as int, n as int));
            assert(lines_spec(t) == seq![piece@]);
            assert(views_of(r@.push(piece)) =~= views_of(r@) + seq![piece@]);
        }
        r.push(piece);
    } else {
        proof {
            assert(s@.skip(start as int) =~= Seq::<char>::empty());
        }
    }
    proof {
        assert(views_of(r@) + Seq::<Seq<char>>::empty() =~= views_of(r@));
        assert forall|k: int| 0 <= k < r@.len() implies (#[trigger] r@[k])@ == lines_spec(s@)[k] by {
            assert(views_of(r@)[k] == r@[k]@);
        }
    }
    r
}

/// Join owned lines with newlines.
pub fn join_lines_str(lines: &Vec<String>) -> (r: String)
    ensures
        r@ == join_lines(lines@.map_values(|s: String| s@)),
{
    let ghost vs = lines@.map_values(|s: String| s@);
    let mut r = String::new();
    let mut i: usize = 0;
    proof {
        assert(vs.subrange(0, 0) =~= Seq::<Seq<char>>::empty());
    }
    while i < lines.len()
        invariant
            i <= lines@.len(),
            vs == lines@.map_values(|s: String| s@),
            vs.len() == lines@.len(),
            r@ == join_lines(vs.subrange(0, i as int)),
        decreases lines@.len() - i,
    {
        if i > 0 {
            r.append("\n");
            proof {
                reveal_strlit("\n");
                assert("\n"@ =~= seq!['\n']);
            }
        }
        r.append(lines[i].as_str());
        proof {
            let pre = vs.subrange(0, i as int);
            let post = vs.subrange(0, (i + 1) as int);
            assert(post =~= pre.push(vs[i as int]));
            assert(vs[i as int] == lines@[i as int]@);
            if i > 0 {
                lemma_join_push(pre, vs[i as int]);
            }
        }
        i = i + 1;
    }
    proof {
        assert(vs.subrange(0, vs.len() as int) =~= vs);
    }
    r
}


} // verus!
