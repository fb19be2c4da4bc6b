//! Laws of the pretty serialization: how it indents, and that it only adds
//! indentation and line breaks to the compact form.
use vstd::prelude::*;

use crate::xml::{
    close_tag, compact, compact_seq, indent, open_tag, pretty, pretty_seq, XmlModel, NEWLINE,
    SPACE,
};

verus! {

/// `s` holds no line break.
pub open spec fn no_newline(s: Seq<u16>) -> bool {
    forall|i: int| 0 <= i < s.len() ==> s[i] != NEWLINE
}

/// `s` is made of whole lines: it is empty or ends with a line break.
pub open spec fn whole_lines(s: Seq<u16>) -> bool {
    s.len() == 0 || s.last() == NEWLINE
}

/// The length of the first line of `s`, its line break included.
pub open spec fn line_len(s: Seq<u16>) -> nat
    decreases s.len(),
{
    if s.len() == 0 {
        0
    } else if s[0] == NEWLINE {
        1
    } else {
        1 + line_len(s.drop_first())
    }
}

/// A non-empty text has a first line of at least one and at most all its units.
pub proof fn lemma_line_len_bounds(s: Seq<u16>)
    ensures
        s.len() > 0 ==> 1 <= line_len(s) <= s.len(),
    decreases s.len(),
{
    if s.len() > 0 {
        lemma_line_len_bounds(s.drop_first());
        assert(line_len(s.drop_first()) <= s.drop_first().len());
    }
}

/// `s` cut into lines, each line (with its line break) replaced by `f` of
/// it, and the results joined.
pub open spec fn map_lines(s: Seq<u16>, f: spec_fn(Seq<u16>) -> Seq<u16>) -> Seq<u16>
    decreases s.len(),
{
    if s.len() == 0 {
        seq![]
    } else {
        proof {
            lemma_line_len_bounds(s);
        }
        f(s.take(line_len(s) as int)) + map_lines(s.skip(line_len(s) as int), f)
    }
}

/// `s` with `k` levels of indentation put before each of its lines.
pub open spec fn shift_lines(s: Seq<u16>, k: nat) -> Seq<u16> {
    map_lines(s, |line: Seq<u16>| indent(k) + line)
}

/// Leading spaces removed.
pub open spec fn trim_spaces(s: Seq<u16>) -> Seq<u16>
    decreases s.len(),
{
    if s.len() > 0 && s[0] == SPACE {
        trim_spaces(s.drop_first())
    } else {
        s
    }
}

/// A line without its leading spaces and its line break.
pub open spec fn strip_line(line: Seq<u16>) -> Seq<u16> {
    trim_spaces(
        if line.len() > 0 && line.last() == NEWLINE {
            line.drop_last()
        } else {
            line
        },
    )
}

/// `s` with the indentation and the line break of each line removed.
pub open spec fn flatten_lines(s: Seq<u16>) -> Seq<u16> {
    map_lines(s, |line: Seq<u16>| strip_line(line))
}

/// No name and no text in `m` holds a line break.
pub open spec fn no_newlines(m: XmlModel) -> bool
    decreases m, 1nat,
{
    match m {
        XmlModel::Element { name, content } => no_newline(name) && no_newlines_seq(content),
        XmlModel::Text(t) => no_newline(t),
    }
}

/// No name and no text in `cs` holds a line break.
pub open spec fn no_newlines_seq(cs: Seq<XmlModel>) -> bool
    decreases cs, 0nat,
{
    if cs.len() == 0 {
        true
    } else {
        no_newlines_seq(cs.drop_last()) && no_newlines(cs.last())
    }
}

/// `m` is an element in which text only ever stands as the only child of
/// its element, and no name or text holds a line break.
pub open spec fn text_only_alone(m: XmlModel) -> bool
    decreases m, 1nat,
{
    match m {
        XmlModel::Element { name, content } => no_newline(name) && if content.len() == 1
            && content[0] is Text {
            no_newline(content[0]->Text_0)
        } else {
            text_only_alone_seq(content)
        },
        XmlModel::Text(_) => false,
    }
}

/// Every node of `cs` is such an element.
pub open spec fn text_only_alone_seq(cs: Seq<XmlModel>) -> bool
    decreases cs, 0nat,
{
    if cs.len() == 0 {
        true
    } else {
        text_only_alone_seq(cs.drop_last()) && text_only_alone(cs.last())
    }
}

proof fn lemma_line_len_line(a: Seq<u16>, b: Seq<u16>)
    requires
        no_newline(a),
    ensures
        line_len(a + seq![NEWLINE] + b) == a.len() + 1,
    decreases a.len(),
{
    let s = a + seq![NEWLINE] + b;
    if a.len() > 0 {
        assert(s.drop_first() =~= a.drop_first() + seq![NEWLINE] + b);
        lemma_line_len_line(a.drop_first(), b);
    }
}

/// A line that is followed by more text is mapped on its own.
proof fn lemma_map_line(a: Seq<u16>, b: Seq<u16>, f: spec_fn(Seq<u16>) -> Seq<u16>)
    requires
        no_newline(a),
    ensures
        map_lines(a + seq![NEWLINE] + b, f) == f(a + seq![NEWLINE]) + map_lines(b, f),
{
    let s = a + seq![NEWLINE] + b;
    lemma_line_len_line(a, b);
    assert(s.take(a.len() as int + 1) =~= a + seq![NEWLINE]);
    assert(s.skip(a.len() as int + 1) =~= b);
}

proof fn lemma_line_len_prefix(a: Seq<u16>, b: Seq<u16>, j: int)
    requires
        0 <= j < a.len(),
        a[j] == NEWLINE,
    ensures
        line_len(a + b) == line_len(a),
        line_len(a) <= j + 1,
    decreases a.len(),
{
    if a[0] != NEWLINE {
        assert((a + b).drop_first() =~= a.drop_first() + b);
        lemma_line_len_prefix(a.drop_first(), b, j - 1);
    }
}

/// Mapping the lines of whole lines followed by more text maps each part on
/// its own.
pub proof fn lemma_map_lines_concat(a: Seq<u16>, b: Seq<u16>, f: spec_fn(Seq<u16>) -> Seq<u16>)
    requires
        whole_lines(a),
    ensures
        map_lines(a + b, f) == map_lines(a, f) + map_lines(b, f),
    decreases a.len(),
{
    if a.len() == 0 {
        assert(a + b =~= b);
    } else {
        lemma_line_len_prefix(a, b, a.len() - 1);
        lemma_line_len_bounds(a);
        let n = line_len(a) as int;
        assert((a + b).take(n) =~= a.take(n));
        assert((a + b).skip(n) =~= a.skip(n) + b);
        lemma_map_lines_concat(a.skip(n), b, f);
    }
}

proof fn lemma_map_single_line(a: Seq<u16>, f: spec_fn(Seq<u16>) -> Seq<u16>)
    requires
        no_newline(a),
    ensures
        map_lines(a + seq![NEWLINE], f) == f(a + seq![NEWLINE]),
{
    lemma_map_line(a, seq![], f);
    assert(a + seq![NEWLINE] + Seq::<u16>::empty() =~= a + seq![NEWLINE]);
    assert(map_lines(Seq::<u16>::empty(), f) =~= Seq::<u16>::empty());
    assert(f(a + seq![NEWLINE]) + Seq::<u16>::empty() =~= f(a + seq![NEWLINE]));
}

proof fn lemma_indent_add(l: nat, k: nat)
    ensures
        indent(l + k) == indent(k) + indent(l),
{
    assert(indent(l + k) =~= indent(k) + indent(l));
}

proof fn lemma_indent_no_newline(l: nat)
    ensures
        no_newline(indent(l)),
{
}

proof fn lemma_tags_no_newline(name: Seq<u16>)
    requires
        no_newline(name),
    ensures
        no_newline(open_tag(name)),
        no_newline(close_tag(name)),
{
    assert forall|i: int| 0 <= i < open_tag(name).len() implies open_tag(name)[i] != NEWLINE by {
        if 1 <= i < 1 + name.len() {
            assert(open_tag(name)[i] == name[i - 1]);
        }
    }
    assert forall|i: int| 0 <= i < close_tag(name).len() implies close_tag(name)[i] != NEWLINE by {
        if 2 <= i < 2 + name.len() {
            assert(close_tag(name)[i] == name[i - 2]);
        }
    }
}

proof fn lemma_concat_no_newline(a: Seq<u16>, b: Seq<u16>)
    requires
        no_newline(a),
        no_newline(b),
    ensures
        no_newline(a + b),
{
    assert forall|i: int| 0 <= i < (a + b).len() implies (a + b)[i] != NEWLINE by {
        if i >= a.len() {
            assert((a + b)[i] == b[i - a.len()]);
        }
    }
}

/// Pretty output is made of whole lines, and is never empty for a node.
pub proof fn lemma_pretty_whole_lines(m: XmlModel, l: nat)
    ensures
        pretty(m, l).len() > 0,
        whole_lines(pretty(m, l)),
    decreases m,
{
}

/// Pretty output of siblings is made of whole lines.
pub proof fn lemma_pretty_seq_whole_lines(cs: Seq<XmlModel>, l: nat)
    ensures
        whole_lines(pretty_seq(cs, l)),
    decreases cs.len(),
{
    if cs.len() > 0 {
        lemma_pretty_whole_lines(cs.last(), l);
    }
}

proof fn lemma_no_newlines_index(cs: Seq<XmlModel>, i: int)
    requires
        no_newlines_seq(cs),
        0 <= i < cs.len(),
    ensures
        no_newlines(cs[i]),
    decreases cs.len(),
{
    if i < cs.len() - 1 {
        lemma_no_newlines_index(cs.drop_last(), i);
    }
}

/// One line `x` at level `l`, shifted by `k` levels, is the same line at
/// level `l + k`.
proof fn lemma_shift_one_line(x: Seq<u16>, l: nat, k: nat)
    requires
        no_newline(x),
    ensures
        shift_lines(indent(l) + x + seq![NEWLINE], k) == indent(l + k) + x + seq![NEWLINE],
{
    lemma_indent_no_newline(l);
    lemma_concat_no_newline(indent(l), x);
    lemma_map_single_line(indent(l) + x, |line: Seq<u16>| indent(k) + line);
    lemma_indent_add(l, k);
    assert(indent(k) + (indent(l) + x + seq![NEWLINE]) =~= indent(l + k) + x + seq![NEWLINE]);
}

/// Pretty printing `k` levels deeper puts `k` more levels of indentation,
/// two spaces each, before every line, and changes nothing else, where no
/// name or text holds a line break.
pub proof fn lemma_pretty_shift(m: XmlModel, l: nat, k: nat)
    requires
        no_newlines(m),
    ensures
        pretty(m, l + k) == shift_lines(pretty(m, l), k),
    decreases m, 1nat,
{
    let f = |line: Seq<u16>| indent(k) + line;
    match m {
        XmlModel::Element { name, content } => {
            lemma_tags_no_newline(name);
            if content.len() == 0 {
                lemma_concat_no_newline(open_tag(name), close_tag(name));
                lemma_shift_one_line(open_tag(name) + close_tag(name), l, k);
                assert(indent(l) + open_tag(name) + close_tag(name) + seq![NEWLINE] =~= indent(l)
                    + (open_tag(name) + close_tag(name)) + seq![NEWLINE]);
                assert(indent(l + k) + open_tag(name) + close_tag(name) + seq![NEWLINE]
                    =~= indent(l + k) + (open_tag(name) + close_tag(name)) + seq![NEWLINE]);
            } else if content.len() == 1 && content[0] is Text {
                let t = content[0]->Text_0;
                lemma_no_newlines_index(content, 0);
                let x = open_tag(name) + t + close_tag(name);
                lemma_concat_no_newline(open_tag(name), t);
                lemma_concat_no_newline(open_tag(name) + t, close_tag(name));
                lemma_shift_one_line(x, l, k);
                assert(indent(l) + open_tag(name) + t + close_tag(name) + seq![NEWLINE] =~= indent(
                    l,
                ) + x + seq![NEWLINE]);
                assert(indent(l + k) + open_tag(name) + t + close_tag(name) + seq![NEWLINE]
                    =~= indent(l + k) + x + seq![NEWLINE]);
            } else {
                let first = indent(l) + open_tag(name) + seq![NEWLINE];
                let body = pretty_seq(content, l + 1);
                let last = indent(l) + close_tag(name) + seq![NEWLINE];
                assert(pretty(m, l) == first + body + last);
                lemma_shift_one_line(open_tag(name), l, k);
                lemma_shift_one_line(close_tag(name), l, k);
                lemma_pretty_seq_whole_lines(content, l + 1);
                assert(whole_lines(first));
                lemma_map_lines_concat(first, body, f);
                assert(whole_lines(first + body));
                lemma_map_lines_concat(first + body, last, f);
                lemma_pretty_seq_shift(content, l + 1, k);
                assert(l + 1 + k == (l + k) + 1);
            }
        },
        XmlModel::Text(t) => {
            lemma_shift_one_line(t, l, k);
        },
    }
}

/// The same for siblings.
pub proof fn lemma_pretty_seq_shift(cs: Seq<XmlModel>, l: nat, k: nat)
    requires
        no_newlines_seq(cs),
    ensures
        pretty_seq(cs, l + k) == shift_lines(pretty_seq(cs, l), k),
    decreases cs, 0nat,
{
    if cs.len() == 0 {
        assert(shift_lines(Seq::<u16>::empty(), k) =~= Seq::<u16>::empty());
    } else {
        let p = cs.drop_last();
        let x = cs.last();
        lemma_pretty_seq_shift(p, l, k);
        lemma_pretty_shift(x, l, k);
        lemma_pretty_seq_whole_lines(p, l);
        lemma_map_lines_concat(pretty_seq(p, l), pretty(x, l), |line: Seq<u16>| indent(k) + line);
    }
}

/// Every line of pretty output at level `l` starts with the indentation of
/// level `l`: the output is that at level zero with `l` levels put before
/// each line.
pub proof fn law_pretty_indents_every_line(m: XmlModel, l: nat)
    requires
        no_newlines(m),
    ensures
        pretty(m, l) == shift_lines(pretty(m, 0), l),
        pretty(m, l + 1) == shift_lines(pretty(m, l), 1),
        whole_lines(pretty(m, l)),
{
    lemma_pretty_shift(m, 0, l);
    lemma_pretty_shift(m, l, 1);
    lemma_pretty_whole_lines(m, l);
}

proof fn lemma_trim_spaces(n: nat, x: Seq<u16>)
    requires
        x.len() > 0,
        x[0] != SPACE,
    ensures
        trim_spaces(Seq::new(n, |i: int| SPACE) + x) == x,
    decreases n,
{
    let s = Seq::new(n, |i: int| SPACE) + x;
    if n > 0 {
        assert(s.drop_first() =~= Seq::new((n - 1) as nat, |i: int| SPACE) + x);
        lemma_trim_spaces((n - 1) as nat, x);
    } else {
        assert(s =~= x);
    }
}

/// One line `x` at level `l` flattens to `x`.
proof fn lemma_flatten_one_line(x: Seq<u16>, l: nat)
    requires
        no_newline(x),
        x.len() > 0,
        x[0] != SPACE,
    ensures
        flatten_lines(indent(l) + x + seq![NEWLINE]) == x,
{
    lemma_indent_no_newline(l);
    lemma_concat_no_newline(indent(l), x);
    lemma_map_single_line(indent(l) + x, |line: Seq<u16>| strip_line(line));
    assert((indent(l) + x + seq![NEWLINE]).drop_last() =~= indent(l) + x);
    assert(indent(l) =~= Seq::new(2 * l, |i: int| SPACE));
    lemma_trim_spaces(2 * l, x);
}

proof fn lemma_compact_single(m: XmlModel)
    ensures
        compact_seq(seq![m]) == compact(m),
{
    assert(seq![m].drop_last() =~= Seq::<XmlModel>::empty());
    assert(compact_seq(Seq::<XmlModel>::empty()) =~= Seq::<u16>::empty());
    assert(Seq::<u16>::empty() + compact(m) =~= compact(m));
}

/// Pretty output with the indentation and the line break of every line
/// removed is the compact output, for an element in which text only stands
/// as the only child of an element and no name or text holds a line break:
/// pretty printing only adds indentation and line breaks.
pub proof fn law_pretty_flattens_to_compact(m: XmlModel, l: nat)
    requires
        text_only_alone(m),
    ensures
        flatten_lines(pretty(m, l)) == compact(m),
    decreases m, 1nat,
{
    let f = |line: Seq<u16>| strip_line(line);
    match m {
        XmlModel::Element { name, content } => {
            lemma_tags_no_newline(name);
            if content.len() == 0 {
                let x = open_tag(name) + close_tag(name);
                lemma_concat_no_newline(open_tag(name), close_tag(name));
                lemma_flatten_one_line(x, l);
                assert(indent(l) + open_tag(name) + close_tag(name) + seq![NEWLINE] =~= indent(l)
                    + x + seq![NEWLINE]);
                assert(content =~= Seq::<XmlModel>::empty());
                assert(compact_seq(Seq::<XmlModel>::empty()) =~= Seq::<u16>::empty());
                assert(compact(m) =~= x);
            } else if content.len() == 1 && content[0] is Text {
                let t = content[0]->Text_0;
                let x = open_tag(name) + t + close_tag(name);
                lemma_concat_no_newline(open_tag(name), t);
                lemma_concat_no_newline(open_tag(name) + t, close_tag(name));
                lemma_flatten_one_line(x, l);
                assert(indent(l) + open_tag(name) + t + close_tag(name) + seq![NEWLINE] =~= indent(
                    l,
                ) + x + seq![NEWLINE]);
                assert(content =~= seq![content[0]]);
                lemma_compact_single(content[0]);
                assert(compact(m) =~= x);
            } else {
                let first = indent(l) + open_tag(name) + seq![NEWLINE];
                let body = pretty_seq(content, l + 1);
                let last = indent(l) + close_tag(name) + seq![NEWLINE];
                assert(pretty(m, l) == first + body + last);
                lemma_flatten_one_line(open_tag(name), l);
                lemma_flatten_one_line(close_tag(name), l);
                lemma_pretty_seq_whole_lines(content, l + 1);
                lemma_map_lines_concat(first, body, f);
                assert(whole_lines(first + body));
                lemma_map_lines_concat(first + body, last, f);
                lemma_pretty_seq_flattens(content, l + 1);
            }
        },
        XmlModel::Text(_) => {},
    }
}

/// The same for siblings that are all such elements.
pub proof fn lemma_pretty_seq_flattens(cs: Seq<XmlModel>, l: nat)
    requires
        text_only_alone_seq(cs),
    ensures
        flatten_lines(pretty_seq(cs, l)) == compact_seq(cs),
    decreases cs, 0nat,
{
    if cs.len() == 0 {
        assert(flatten_lines(Seq::<u16>::empty()) =~= Seq::<u16>::empty());
    } else {
        let p = cs.drop_last();
        let x = cs.last();
        lemma_pretty_seq_flattens(p, l);
        law_pretty_flattens_to_compact(x, l);
        lemma_pretty_seq_whole_lines(p, l);
        lemma_map_lines_concat(pretty_seq(p, l), pretty(x, l), |line: Seq<u16>| strip_line(line));
    }
}

} // verus!
