//! The documentation formatter: free-text doc strings become
//! backend-correct comment blocks with normalized indentation.

use crate::text::{
    count_spaces, is_blank, is_blank_str, is_wsp, join_lines, leading_spaces, lemma_count_spaces,
    lemma_join_push, lemma_lines_join, lemma_lines_no_nl, lemma_spaces, lines_spec, no_nl,
    spaces, spaces_str, split_lines, trim_spec, trim_str, views_of,
};
use vstd::prelude::*;
use vstd::string::*;

verus! {

/// Which comment marker a backend uses.
#[derive(Clone, Copy)]
pub enum CommentStyle {
    /// A line comment: `// `.
    DoubleSlash,
    /// A doc comment: `/// `.
    TripleSlash,
}

/// The comment marker of a style, with its single trailing space.
pub open spec fn marker(style: CommentStyle) -> Seq<char> {
    match style {
        CommentStyle::DoubleSlash => "// "@,
        CommentStyle::TripleSlash => "/// "@,
    }
}

/// The least leading-space count over the non-blank lines, or `None` when
/// every line is blank.
pub open spec fn min_indent(ls: Seq<Seq<char>>) -> Option<int>
    decreases ls.len(),
{
    if ls.len() == 0 {
        Option::None
    } else {
        let rest = min_indent(ls.drop_last());
        let l = ls.last();
        if is_blank(l) {
            rest
        } else {
            let c = count_spaces(l);
            match rest {
                Option::None => Option::Some(c),
                Option::Some(r) => Option::Some(
                    if c < r {
                        c
                    } else {
                        r
                    },
                ),
            }
        }
    }
}

/// A line with `m` leading spaces removed, when it has that many.
pub open spec fn strip_line(l: Seq<char>, m: int) -> Seq<char> {
    if count_spaces(l) >= m {
        l.skip(m)
    } else {
        l
    }
}

/// Every line stripped of `m` leading spaces where possible.
pub open spec fn strip_all(ls: Seq<Seq<char>>, m: int) -> Seq<Seq<char>> {
    ls.map_values(|l: Seq<char>| strip_line(l, m))
}

/// Indentation adjustment: the least leading-space count over the non-blank
/// lines after the first is stripped from every line, so that indentation
/// relative to that minimum (an embedded table, a code sample) is kept.  A
/// text whose minimum is zero, or with no line to measure, is unchanged.
pub open spec fn adjust_spec(d: Seq<char>) -> Seq<char> {
    let ls = lines_spec(d);
    let m = if ls.len() <= 1 {
        Option::<int>::None
    } else {
        min_indent(ls.skip(1))
    };
    match m {
        Option::None => d,
        Option::Some(v) => if v == 0 {
            d
        } else {
            join_lines(strip_all(ls, v))
        },
    }
}

/// The full comment block: `None` for blank input; otherwise the adjusted,
/// trimmed text, each line prefixed with the requested indent and marker.
pub open spec fn format_docstring_spec(doc: Seq<char>, style: CommentStyle, indent: nat) -> Option<
    Seq<char>,
> {
    if is_blank(doc) {
        Option::None
    } else {
        let prefix = spaces(indent) + marker(style);
        Option::Some(
            join_lines(
                lines_spec(trim_spec(adjust_spec(doc))).map_values(|l: Seq<char>| prefix + l),
            ),
        )
    }
}

/// Adjust indentation of a whole doc block.
///
/// Doc strings are normally authored as indented multi-line text: the first
/// line carries no leading whitespace (it begins right after the opening
/// delimiter) but subsequent lines inherit the surrounding code indentation.
/// This finds the minimum leading-space count over the non-blank lines after
/// the first and strips exactly that many spaces from every line.
pub fn adjust_indentation(doc: &str) -> (r: String)
    ensures
        r@ == adjust_spec(doc@),
{
    let ls = split_lines(doc);
    let ghost v = views_of(ls@);
    let mut m: Option<usize> = Option::None;
    let mut i: usize = 1;
    proof {
        if ls.len() > 1 {
            assert(v.subrange(1, 1) =~= Seq::<Seq<char>>::empty());
        }
    }
    while i < ls.len()
        invariant
            1 <= i,
            i <= ls.len() || i == 1,
            v == views_of(ls@),
            v.len() == ls@.len(),
            i <= ls.len() ==> match m {
                Option::None => min_indent(v.subrange(1, i as int)) is None,
                Option::Some(c) => min_indent(v.subrange(1, i as int)) == Option::Some(c as int),
            },
        decreases ls.len() - i,
    {
        let line = ls[i];
        proof {
            let pre = v.subrange(1, i as int);
            let post = v.subrange(1, (i + 1) as int);
            assert(post.drop_last() =~= pre);
            assert(post.last() == v[i as int]);
            assert(v[i as int] == line@);
        }
        if !is_blank_str(line) {
            let c = leading_spaces(line);
            m = match m {
                Option::None => Option::Some(c),
                Option::Some(r) => Option::Some(
                    if c < r {
                        c
                    } else {
                        r
                    },
                ),
            };
        }
        i = i + 1;
    }
    let stripped_by: usize = match m {
        Option::None => {
            return doc.to_owned();
        },
        Option::Some(c) => {
            if c == 0 {
                return doc.to_owned();
            }
            c
        },
    };
    proof {
        if ls.len() > 1 {
            assert(v.subrange(1, ls@.len() as int) =~= v.skip(1));
        }
    }
    let mut r = String::new();
    let mut j: usize = 0;
    proof {
        assert(strip_all(v.subrange(0, 0), stripped_by as int) =~= Seq::<Seq<char>>::empty());
    }
    while j < ls.len()
        invariant
            j <= ls.len(),
            v == views_of(ls@),
            v.len() == ls@.len(),
            stripped_by > 0,
            r@ == join_lines(strip_all(v.subrange(0, j as int), stripped_by as int)),
        decreases ls.len() - j,
    {
        let line = ls[j];
        proof {
            assert(v[j as int] == line@);
        }
        if j > 0 {
            r.append("\n");
            proof {
                reveal_strlit("\n");
                assert("\n"@ =~= seq!['\n']);
            }
        }
        let lead = leading_spaces(line);
        if lead >= stripped_by {
            proof {
                lemma_count_spaces(line@);
            }
            let piece = line.substring_char(stripped_by, line.unicode_len());
            proof {
                assert(piece@ =~= line@.skip(stripped_by as int));
            }
            r.append(piece);
        } else {
            r.append(line);
        }
        proof {
            let pre = strip_all(v.subrange(0, j as int), stripped_by as int);
            let post = strip_all(v.subrange(0, (j + 1) as int), stripped_by as int);
            assert(post =~= pre.push(strip_line(v[j as int], stripped_by as int)));
            if j > 0 {
                lemma_join_push(pre, strip_line(v[j as int], stripped_by as int));
            }
        }
        j = j + 1;
    }
    proof {
        assert(v.subrange(0, ls@.len() as int) =~= v);
    }
    r
}

/// Convert a free-text doc string into a comment block: `None` for
/// blank input; otherwise every line of the re-indented, trimmed text,
/// prefixed with `indent` spaces and the comment marker of `style`, joined
/// with newlines.
pub fn format_docstring(doc: &str, style: CommentStyle, indent: usize) -> (r: Option<String>)
    ensures
        r is Some <==> format_docstring_spec(doc@, style, indent as nat) is Some,
        r is Some ==> r->0@ == format_docstring_spec(doc@, style, indent as nat)->0,
{
    if is_blank_str(doc) {
        return Option::None;
    }
    let adjusted = adjust_indentation(doc);
    let body = trim_str(adjusted.as_str());
    let ls = split_lines(body);
    let ghost v = views_of(ls@);
    let mut prefix = spaces_str(indent);
    match style {
        CommentStyle::DoubleSlash => prefix.append("// "),
        CommentStyle::TripleSlash => prefix.append("/// "),
    }
    let ghost pfx = spaces(indent as nat) + marker(style);
    let ghost target = v.map_values(|l: Seq<char>| pfx + l);
    let mut r = String::new();
    let mut i: usize = 0;
    proof {
        assert(target.subrange(0, 0) =~= Seq::<Seq<char>>::empty());
    }
    while i < ls.len()
        invariant
            i <= ls.len(),
            v == views_of(ls@),
            v.len() == ls@.len(),
            prefix@ == pfx,
            target == v.map_values(|l: Seq<char>| pfx + l),
            r@ == join_lines(target.subrange(0, i as int)),
        decreases ls.len() - i,
    {
        if i > 0 {
            r.append("\n");
            proof {
                reveal_strlit("\n");
                assert("\n"@ =~= seq!['\n']);
            }
        }
        r.append(prefix.as_str());
        r.append(ls[i]);
        proof {
            let pre = target.subrange(0, i as int);
            let post = target.subrange(0, (i + 1) as int);
            assert(v[i as int] == ls@[i as int]@);
            assert(post =~= pre.push(pfx + v[i as int]));
            if i > 0 {
                lemma_join_push(pre, pfx + v[i as int]);
            }
        }
        i = i + 1;
    }
    proof {
        assert(target.subrange(0, ls@.len() as int) =~= target);
    }
    Option::Some(r)
}

/// Law: re-indentation is idempotent.  Running the adjustment twice gives
/// the same text as running it once.
pub proof fn lemma_adjust_idempotent(d: Seq<char>)
    ensures
        adjust_spec(adjust_spec(d)) == adjust_spec(d),
{
    let ls = lines_spec(d);
    if ls.len() <= 1 {
    } else {
        match min_indent(ls.skip(1)) {
            Option::None => {},
            Option::Some(v) => {
                if v == 0 {
                } else {
                    lemma_min_indent_nonneg(ls.skip(1));
                    let sl = strip_all(ls, v);
                    let d2 = join_lines(sl);
                    lemma_lines_no_nl(d);
                    assert forall|k: int| 0 <= k < sl.len() implies no_nl(#[trigger] sl[k]) by {
                        assert(sl[k] == strip_line(ls[k], v));
                        assert(no_nl(ls[k]));
                        lemma_count_spaces(ls[k]);
                        if count_spaces(ls[k]) >= v {
                            assert(sl[k] == ls[k].skip(v));
                            assert forall|q: int| 0 <= q < sl[k].len() implies sl[k][q]
                                != '\n' by {
                                assert(ls[k].skip(v)[q] == ls[k][q + v]);
                            }
                        }
                    }
                    lemma_lines_join(sl);
                    let ls2 = lines_spec(d2);
                    // A witness line after the first has exactly `v` leading
                    // spaces; stripped, it shows the new minimum is zero.
                    let w0 = lemma_min_indent_witness(ls.skip(1), v);
                    let w = w0 + 1;
                    assert(ls.skip(1)[w0] == ls[w]);
                    assert(count_spaces(ls[w]) == v);
                    assert(sl[w] == strip_line(ls[w], v));
                    assert(sl[w] == ls[w].skip(v));
                    lemma_skip_spaces(ls[w], v);
                    assert(count_spaces(sl[w]) == 0);
                    assert(!is_blank(sl[w]));
                    assert(sl[w].len() > 0);
                    if sl.last().len() == 0 {
                        assert(w < sl.len() - 1);
                        assert(ls2 == sl.drop_last());
                    } else {
                        assert(ls2 == sl);
                    }
                    assert(ls2[w] == sl[w]);
                    assert(ls2.len() > w);
                    assert(ls2.skip(1)[w - 1] == ls2[w]);
                    lemma_min_indent_zero(ls2.skip(1), w - 1);
                    assert(adjust_spec(d2) == d2);
                }
            },
        }
    }
}

/// A defined minimum is never negative.
proof fn lemma_min_indent_nonneg(ls: Seq<Seq<char>>)
    ensures
        min_indent(ls) is Some ==> min_indent(ls)->0 >= 0,
    decreases ls.len(),
{
    if ls.len() > 0 {
        lemma_min_indent_nonneg(ls.drop_last());
        if !is_blank(ls.last()) {
            lemma_count_spaces(ls.last());
        }
    }
}

/// A defined minimum is attained by some non-blank line.
proof fn lemma_min_indent_witness(ls: Seq<Seq<char>>, v: int) -> (w: int)
    requires
        min_indent(ls) == Option::Some(v),
    ensures
        0 <= w < ls.len(),
        !is_blank(ls[w]),
        count_spaces(ls[w]) == v,
    decreases ls.len(),
{
    if is_blank(ls.last()) || (min_indent(ls.drop_last()) is Some && min_indent(ls.drop_last())->0
        <= count_spaces(ls.last())) {
        if min_indent(ls.drop_last()) == Option::Some(v) {
            let w = lemma_min_indent_witness(ls.drop_last(), v);
            assert(ls.drop_last()[w] == ls[w]);
            w
        } else {
            assert(!is_blank(ls.last()) && count_spaces(ls.last()) == v);
            ls.len() - 1
        }
    } else {
        assert(!is_blank(ls.last()) && count_spaces(ls.last()) == v);
        ls.len() - 1
    }
}

/// A non-blank line with no leading space forces the minimum to zero.
proof fn lemma_min_indent_zero(ls: Seq<Seq<char>>, w: int)
    requires
        0 <= w < ls.len(),
        !is_blank(ls[w]),
        count_spaces(ls[w]) == 0,
    ensures
        min_indent(ls) == Option::Some(0int),
    decreases ls.len(),
{
    lemma_min_indent_nonneg(ls.drop_last());
    if w == ls.len() - 1 {
        if !is_blank(ls.last()) {
            lemma_count_spaces(ls.last());
        }
    } else {
        lemma_min_indent_zero(ls.drop_last(), w);
        if !is_blank(ls.last()) {
            lemma_count_spaces(ls.last());
        }
    }
}

/// Skipping part of the leading space run shortens it by as much; what
/// makes the line non-blank survives.
proof fn lemma_skip_spaces(l: Seq<char>, v: int)
    requires
        0 <= v <= count_spaces(l),
        !is_blank(l),
    ensures
        count_spaces(l.skip(v)) == count_spaces(l) - v,
        !is_blank(l.skip(v)),
    decreases v,
{
    lemma_count_spaces(l);
    if v == 0 {
        assert(l.skip(0) =~= l);
    } else {
        assert(l[0] == ' ');
        assert(l.drop_first() =~= l.skip(1));
        assert(count_spaces(l) == 1 + count_spaces(l.skip(1)));
        assert(!is_blank(l.skip(1))) by {
            let k = choose|k: int| 0 <= k < l.len() && !is_wsp(l[k]);
            assert(l[k] != ' ');
            assert(k >= 1);
            assert(l.skip(1)[k - 1] == l[k]);
        }
        lemma_skip_spaces(l.skip(1), v - 1);
        assert(l.skip(1).skip(v - 1) =~= l.skip(v));
    }
}

/// Law: in a formatted block every line carries the requested prefix — the
/// indent spaces followed by the comment marker of the style.
pub proof fn lemma_docstring_line_prefixes(doc: Seq<char>, style: CommentStyle, indent: nat)
    requires
        format_docstring_spec(doc, style, indent) is Some,
    ensures
        ({
            let out = format_docstring_spec(doc, style, indent)->0;
            let prefix = spaces(indent) + marker(style);
            forall|k: int|
                0 <= k < lines_spec(out).len() ==> (#[trigger] lines_spec(out)[k]).take(
                    prefix.len() as int,
                ) == prefix
        }),
{
    let out = format_docstring_spec(doc, style, indent)->0;
    let prefix = spaces(indent) + marker(style);
    let body = lines_spec(trim_spec(adjust_spec(doc)));
    let pieces = body.map_values(|l: Seq<char>| prefix + l);
    assert(out == join_lines(pieces));
    reveal_strlit("// ");
    reveal_strlit("/// ");
    lemma_spaces(indent);
    assert(marker(style).len() > 0);
    assert(prefix.len() > 0);
    if pieces.len() == 0 {
        assert(lines_spec(out).len() == 0);
    } else {
        assert forall|k: int| 0 <= k < pieces.len() implies no_nl(#[trigger] pieces[k]) by {
            lemma_lines_no_nl(trim_spec(adjust_spec(doc)));
            assert(no_nl(body[k]));
            assert(pieces[k] == prefix + body[k]);
            assert forall|q: int| 0 <= q < pieces[k].len() implies pieces[k][q] != '\n' by {
                if q < prefix.len() {
                    assert(pieces[k][q] == prefix[q]);
                    if q < indent {
                        assert(prefix[q] == ' ');
                    } else {
                        assert(prefix[q] == marker(style)[q - indent]);
                        assert(marker(style)[q - indent] != '\n');
                    }
                } else {
                    assert(pieces[k][q] == body[k][q - prefix.len()]);
                }
            }
        }
        assert(pieces.last().len() >= prefix.len());
        assert(pieces.last().len() != 0);
        lemma_lines_join(pieces);
        assert(lines_spec(out) == pieces);
        assert forall|k: int| 0 <= k < lines_spec(out).len() implies (#[trigger] lines_spec(
            out,
        )[k]).take(prefix.len() as int) == prefix by {
            assert(lines_spec(out)[k] == prefix + body[k]);
            assert((prefix + body[k]).take(prefix.len() as int) =~= prefix);
        }
    }
}

} // verus!
