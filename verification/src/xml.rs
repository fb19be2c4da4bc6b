//! A small XML tree over UTF-16 code units, with escaping of text content and
//! compact and pretty serialization.
use vstd::prelude::*;

use crate::wide::utf16_of_char;

verus! {

/// UTF-16 code unit of `&`.
pub const AMP: u16 = 0x26;
/// UTF-16 code unit of `<`.
pub const LT: u16 = 0x3c;
/// UTF-16 code unit of `>`.
pub const GT: u16 = 0x3e;
/// UTF-16 code unit of `"`.
pub const QUOT: u16 = 0x22;
/// UTF-16 code unit of `'`.
pub const APOS: u16 = 0x27;

/// The UTF-16 code unit of a character that takes a single one, that is,
/// a character below U+10000.
pub fn utf16(c: char) -> (res: u16)
    requires
        utf16_of_char(c).len() == 1,
    ensures
        seq![res] == utf16_of_char(c),
{
    (c as u32) as u16
}

/// The entity that stands for one code unit of text, or the unit itself.
pub open spec fn escape_unit(u: u16) -> Seq<u16> {
    if u == AMP {
        seq![AMP, 0x61u16, 0x6du16, 0x70u16, 0x3bu16]
    } else if u == LT {
        seq![AMP, 0x6cu16, 0x74u16, 0x3bu16]
    } else if u == GT {
        seq![AMP, 0x67u16, 0x74u16, 0x3bu16]
    } else if u == QUOT {
        seq![AMP, 0x71u16, 0x75u16, 0x6fu16, 0x74u16, 0x3bu16]
    } else if u == APOS {
        seq![AMP, 0x61u16, 0x70u16, 0x6fu16, 0x73u16, 0x3bu16]
    } else {
        seq![u]
    }
}

/// XML text content for `s`: each code unit replaced by its entity.
pub open spec fn escape(s: Seq<u16>) -> Seq<u16>
    decreases s.len(),
{
    if s.len() == 0 {
        seq![]
    } else {
        escape_unit(s[0]) + escape(s.drop_first())
    }
}

proof fn lemma_escape_push(s: Seq<u16>, u: u16)
    ensures
        escape(s.push(u)) == escape(s) + escape_unit(u),
    decreases s.len(),
{
    if s.len() == 0 {
        assert(s.push(u).drop_first() =~= Seq::<u16>::empty());
        assert(escape(Seq::<u16>::empty()) =~= Seq::<u16>::empty());
        assert(s.push(u)[0] == u);
        assert(escape(s.push(u)) =~= escape(s) + escape_unit(u));
    } else {
        assert(s.push(u).drop_first() =~= s.drop_first().push(u));
        lemma_escape_push(s.drop_first(), u);
        assert(escape(s.push(u)) =~= escape(s) + escape_unit(u));
    }
}

/// Decoding of XML text: the entities `&amp;`, `&lt;`, `&gt;`, `&quot;` and
/// `&apos;` stand for the character they name; every other code unit stands
/// for itself.
pub open spec fn unescape(s: Seq<u16>) -> Seq<u16>
    decreases s.len(),
{
    if s.len() == 0 {
        seq![]
    } else if s.len() >= 5 && s.take(5) == escape_unit(AMP) {
        seq![AMP] + unescape(s.skip(5))
    } else if s.len() >= 4 && s.take(4) == escape_unit(LT) {
        seq![LT] + unescape(s.skip(4))
    } else if s.len() >= 4 && s.take(4) == escape_unit(GT) {
        seq![GT] + unescape(s.skip(4))
    } else if s.len() >= 6 && s.take(6) == escape_unit(QUOT) {
        seq![QUOT] + unescape(s.skip(6))
    } else if s.len() >= 6 && s.take(6) == escape_unit(APOS) {
        seq![APOS] + unescape(s.skip(6))
    } else {
        seq![s[0]] + unescape(s.drop_first())
    }
}

proof fn lemma_unescape_unit(u: u16, rest: Seq<u16>)
    ensures
        unescape(escape_unit(u) + rest) == seq![u] + unescape(rest),
{
    let e = escape_unit(u);
    let s = e + rest;
    assert(s.skip(e.len() as int) =~= rest);
    assert(s.take(e.len() as int) =~= e);
    if u != AMP && u != LT && u != GT && u != QUOT && u != APOS {
        assert(s.drop_first() =~= rest);
        assert(s[0] == u);
    } else {
        assert(s.take(4) =~= e.take(4));
        assert(s.take(5) =~= e.take(5) || e.len() < 5);
        if e.len() >= 6 {
            assert(s.take(6) =~= e.take(6));
        }
        if e.len() >= 5 {
            assert(s.take(5) =~= e.take(5));
        }
    }
}

/// Decoding the escaped form of a text gives the text back: escaping loses
/// nothing, and two different texts never escape to the same content.
pub proof fn lemma_unescape_escape(s: Seq<u16>)
    ensures
        unescape(escape(s)) == s,
    decreases s.len(),
{
    if s.len() > 0 {
        lemma_unescape_escape(s.drop_first());
        lemma_unescape_unit(s[0], escape(s.drop_first()));
        assert(seq![s[0]] + s.drop_first() =~= s);
    }
}

/// Text without any of the five special characters is written as it is.
pub proof fn law_escape_keeps_plain_text(s: Seq<u16>)
    requires
        forall|i: int|
            0 <= i < s.len() ==> {
                let u = #[trigger] s[i];
                u != AMP && u != LT && u != GT && u != QUOT && u != APOS
            },
    ensures
        escape(s) == s,
    decreases s.len(),
{
    if s.len() > 0 {
        law_escape_keeps_plain_text(s.drop_first());
        assert(seq![s[0]] + s.drop_first() =~= s);
    }
}

/// Escaped text holds none of `<`, `>`, `"` and `'`.
pub proof fn lemma_escape_no_markup(s: Seq<u16>)
    ensures
        forall|i: int|
            0 <= i < escape(s).len() ==> {
                let u = #[trigger] escape(s)[i];
                u != LT && u != GT && u != QUOT && u != APOS
            },
    decreases s.len(),
{
    if s.len() > 0 {
        lemma_escape_no_markup(s.drop_first());
        let e = escape_unit(s[0]);
        let r = escape(s.drop_first());
        assert forall|i: int| 0 <= i < escape(s).len() implies {
            let u = #[trigger] escape(s)[i];
            u != LT && u != GT && u != QUOT && u != APOS
        } by {
            if i >= e.len() {
                assert(escape(s)[i] == r[i - e.len()]);
            }
        }
    }
}

fn push_escaped_unit(u: u16, output: &mut Vec<u16>)
    ensures
        final(output)@ == old(output)@ + escape_unit(u),
{
    let ghost start = output@;
    if u == AMP {
        output.push(AMP);
        output.push(0x61);
        output.push(0x6d);
        output.push(0x70);
        output.push(0x3b);
    } else if u == LT {
        output.push(AMP);
        output.push(0x6c);
        output.push(0x74);
        output.push(0x3b);
    } else if u == GT {
        output.push(AMP);
        output.push(0x67);
        output.push(0x74);
        output.push(0x3b);
    } else if u == QUOT {
        output.push(AMP);
        output.push(0x71);
        output.push(0x75);
        output.push(0x6f);
        output.push(0x74);
        output.push(0x3b);
    } else if u == APOS {
        output.push(AMP);
        output.push(0x61);
        output.push(0x70);
        output.push(0x6f);
        output.push(0x73);
        output.push(0x3b);
    } else {
        output.push(u);
    }
    assert(output@ =~= start + escape_unit(u));
}

/// Appends the escaped form of `text` to `output`.
fn push_escaped(text: &[u16], output: &mut Vec<u16>)
    ensures
        final(output)@ == old(output)@ + escape(text@),
{
    let ghost start = output@;
    let n = text.len();
    let mut i: usize = 0;
    assert(escape(text@.take(0)) =~= Seq::<u16>::empty());
    while i < n
        invariant
            n == text@.len(),
            i <= n,
            output@ == start + escape(text@.take(i as int)),
        decreases n - i,
    {
        let u = text[i];
        proof {
            lemma_escape_push(text@.take(i as int), u);
            assert(text@.take(i as int).push(u) =~= text@.take(i + 1));
        }
        push_escaped_unit(u, output);
        i = i + 1;
    }
    assert(text@.take(n as int) =~= text@);
}

/// A node of an XML document: an element with its children, or text that is
/// already escaped.
#[derive(Debug)]
pub enum Xml {
    Element { name: Vec<u16>, content: Vec<Xml> },
    Text(Vec<u16>),
}

impl Xml {
    /// A text node holding `text` with the XML special characters escaped.
    pub fn text(text: &[u16]) -> (res: Xml)
        ensures
            res matches Xml::Text(t) && t@ == escape(text@),
    {
        let mut out: Vec<u16> = Vec::new();
        push_escaped(text, &mut out);
        Xml::Text(out)
    }
}

/// The mathematical form of an XML node.
pub enum XmlModel {
    Element { name: Seq<u16>, content: Seq<XmlModel> },
    Text(Seq<u16>),
}

/// The model of an XML node.
pub open spec fn xml_model(x: Xml) -> XmlModel
    decreases x, 1nat,
{
    match x {
        Xml::Element { name, content } => XmlModel::Element {
            name: name@,
            content: xml_models(content@),
        },
        Xml::Text(t) => XmlModel::Text(t@),
    }
}

/// The models of a sequence of XML nodes.
pub open spec fn xml_models(cs: Seq<Xml>) -> Seq<XmlModel>
    decreases cs, 0nat,
{
    if cs.len() == 0 {
        seq![]
    } else {
        xml_models(cs.drop_last()).push(xml_model(cs.last()))
    }
}

impl View for Xml {
    type V = XmlModel;

    open spec fn view(&self) -> XmlModel {
        xml_model(*self)
    }
}

/// UTF-16 code unit of `/`.
pub const SLASH: u16 = 0x2f;
/// UTF-16 code unit of a space.
pub const SPACE: u16 = 0x20;
/// UTF-16 code unit of a line feed.
pub const NEWLINE: u16 = 0x0a;

/// `<name>`
pub open spec fn open_tag(name: Seq<u16>) -> Seq<u16> {
    seq![LT] + name + seq![GT]
}

/// `</name>`
pub open spec fn close_tag(name: Seq<u16>) -> Seq<u16> {
    seq![LT, SLASH] + name + seq![GT]
}

/// Compact serialization: no whitespace is added anywhere.
pub open spec fn compact(m: XmlModel) -> Seq<u16>
    decreases m, 1nat,
{
    match m {
        XmlModel::Element { name, content } => open_tag(name) + compact_seq(content) + close_tag(
            name,
        ),
        XmlModel::Text(t) => t,
    }
}

/// Compact serialization of a sequence of sibling nodes.
pub open spec fn compact_seq(cs: Seq<XmlModel>) -> Seq<u16>
    decreases cs, 0nat,
{
    if cs.len() == 0 {
        seq![]
    } else {
        compact_seq(cs.drop_last()) + compact(cs.last())
    }
}

/// Two spaces per nesting level.
pub open spec fn indent(level: nat) -> Seq<u16> {
    Seq::new(2 * level, |i: int| SPACE)
}

/// Pretty serialization at nesting `level`: one node per line, indented by
/// two spaces per level; an element whose only child is text is kept on one
/// line, and an element without children is written as an open and a close
/// tag on one line.
pub open spec fn pretty(m: XmlModel, level: nat) -> Seq<u16>
    decreases m, 1nat,
{
    match m {
        XmlModel::Element { name, content } => {
            if content.len() == 0 {
                indent(level) + open_tag(name) + close_tag(name) + seq![NEWLINE]
            } else if content.len() == 1 && content[0] is Text {
                indent(level) + open_tag(name) + content[0]->Text_0 + close_tag(name) + seq![
                    NEWLINE,
                ]
            } else {
                indent(level) + open_tag(name) + seq![NEWLINE] + pretty_seq(content, level + 1)
                    + indent(level) + close_tag(name) + seq![NEWLINE]
            }
        },
        XmlModel::Text(t) => indent(level) + t + seq![NEWLINE],
    }
}

/// Pretty serialization of a sequence of sibling nodes at nesting `level`.
pub open spec fn pretty_seq(cs: Seq<XmlModel>, level: nat) -> Seq<u16>
    decreases cs, 0nat,
{
    if cs.len() == 0 {
        seq![]
    } else {
        pretty_seq(cs.drop_last(), level) + pretty(cs.last(), level)
    }
}

/// How deeply elements nest in `m`; text has depth zero.
pub open spec fn depth(m: XmlModel) -> nat
    decreases m, 1nat,
{
    match m {
        XmlModel::Element { name, content } => 1 + depth_seq(content),
        XmlModel::Text(_) => 0,
    }
}

/// The greatest depth among `cs`.
pub open spec fn depth_seq(cs: Seq<XmlModel>) -> nat
    decreases cs, 0nat,
{
    if cs.len() == 0 {
        0
    } else {
        let d = depth(cs.last());
        let e = depth_seq(cs.drop_last());
        if d < e { e } else { d }
    }
}

proof fn lemma_models_index(cs: Seq<Xml>)
    ensures
        xml_models(cs).len() == cs.len(),
        forall|i: int| 0 <= i < cs.len() ==> #[trigger] xml_models(cs)[i] == xml_model(cs[i]),
    decreases cs.len(),
{
    if cs.len() > 0 {
        lemma_models_index(cs.drop_last());
    }
}

/// The models of `cs` with `x` appended.
pub proof fn lemma_models_push(cs: Seq<Xml>, x: Xml)
    ensures
        xml_models(cs.push(x)) == xml_models(cs).push(xml_model(x)),
{
    assert(cs.push(x).drop_last() =~= cs);
}

proof fn lemma_models_take(cs: Seq<Xml>, i: int)
    requires
        0 <= i < cs.len(),
    ensures
        xml_models(cs.take(i + 1)) == xml_models(cs.take(i)).push(xml_model(cs[i])),
{
    assert(cs.take(i + 1).drop_last() =~= cs.take(i));
}

proof fn lemma_depth_seq_index(cs: Seq<XmlModel>, i: int)
    requires
        0 <= i < cs.len(),
    ensures
        depth(cs[i]) <= depth_seq(cs),
    decreases cs.len(),
{
    if i < cs.len() - 1 {
        lemma_depth_seq_index(cs.drop_last(), i);
    }
}

/// A bound on the depth of every node of `cs` bounds the depth of `cs`.
pub proof fn lemma_depth_seq_bound(cs: Seq<XmlModel>, k: nat)
    requires
        forall|i: int| 0 <= i < cs.len() ==> depth(#[trigger] cs[i]) <= k,
    ensures
        depth_seq(cs) <= k,
    decreases cs.len(),
{
    if cs.len() > 0 {
        lemma_depth_seq_bound(cs.drop_last(), k);
    }
}

proof fn lemma_compact_seq_push(cs: Seq<XmlModel>, m: XmlModel)
    ensures
        compact_seq(cs.push(m)) == compact_seq(cs) + compact(m),
{
    assert(cs.push(m).drop_last() =~= cs);
}

proof fn lemma_pretty_seq_push(cs: Seq<XmlModel>, m: XmlModel, level: nat)
    ensures
        pretty_seq(cs.push(m), level) == pretty_seq(cs, level) + pretty(m, level),
{
    assert(cs.push(m).drop_last() =~= cs);
}

/// Appends `units` to `output`.
fn push_units(units: &[u16], output: &mut Vec<u16>)
    ensures
        final(output)@ == old(output)@ + units@,
{
    let ghost start = output@;
    let n = units.len();
    let mut i: usize = 0;
    while i < n
        invariant
            n == units@.len(),
            i <= n,
            output@ == start + units@.take(i as int),
        decreases n - i,
    {
        output.push(units[i]);
        i = i + 1;
        assert(start + units@.take(i as int) =~= (start + units@.take(i - 1)).push(units@[i - 1]));
    }
    assert(units@.take(n as int) =~= units@);
}

fn push_open_tag(name: &[u16], output: &mut Vec<u16>)
    ensures
        final(output)@ == old(output)@ + open_tag(name@),
{
    let ghost start = output@;
    output.push(LT);
    push_units(name, output);
    output.push(GT);
    assert(output@ =~= start + open_tag(name@));
}

fn push_close_tag(name: &[u16], output: &mut Vec<u16>)
    ensures
        final(output)@ == old(output)@ + close_tag(name@),
{
    let ghost start = output@;
    output.push(LT);
    output.push(SLASH);
    push_units(name, output);
    output.push(GT);
    assert(output@ =~= start + close_tag(name@));
}

fn push_indent(level: usize, output: &mut Vec<u16>)
    ensures
        final(output)@ == old(output)@ + indent(level as nat),
{
    let ghost start = output@;
    let mut i: usize = 0;
    while i < level
        invariant
            i <= level,
            output@ == start + indent(i as nat),
        decreases level - i,
    {
        output.push(SPACE);
        output.push(SPACE);
        i = i + 1;
        assert(output@ =~= start + indent(i as nat));
    }
}

impl Xml {
    /// An element called `name` with the children `content`.
    pub fn element(name: Vec<u16>, content: Vec<Xml>) -> (res: Xml)
        ensures
            res@ == (XmlModel::Element { name: name@, content: xml_models(content@) }),
    {
        Xml::Element { name, content }
    }

    fn write_compact(&self, output: &mut Vec<u16>)
        ensures
            final(output)@ == old(output)@ + compact(self@),
        decreases self,
    {
        match self {
            Xml::Element { name, content } => {
                let ghost start = output@;
                push_open_tag(name.as_slice(), output);
                let n = content.len();
                let mut i: usize = 0;
                while i < n
                    invariant
                        n == content@.len(),
                        i <= n,
                        *self == (Xml::Element { name: *name, content: *content }),
                        self@ == (XmlModel::Element { name: name@, content: xml_models(content@) }),
                        output@ == start + open_tag(name@) + compact_seq(
                            xml_models(content@.take(i as int)),
                        ),
                    decreases n - i,
                {
                    proof {
                        lemma_models_take(content@, i as int);
                        lemma_compact_seq_push(
                            xml_models(content@.take(i as int)),
                            xml_model(content@[i as int]),
                        );
                    }
                    content[i].write_compact(output);
                    i = i + 1;
                }
                assert(content@.take(n as int) =~= content@);
                push_close_tag(name.as_slice(), output);
            },
            Xml::Text(text) => {
                push_units(text.as_slice(), output);
            },
        }
    }

    fn write_pretty(&self, output: &mut Vec<u16>, level: usize)
        requires
            level + depth(self@) <= usize::MAX,
        ensures
            final(output)@ == old(output)@ + pretty(self@, level as nat),
        decreases self,
    {
        let ghost start = output@;
        match self {
            Xml::Element { name, content } => {
                proof {
                    lemma_models_index(content@);
                }
                if content.len() == 0 {
                    push_indent(level, output);
                    push_open_tag(name.as_slice(), output);
                    push_close_tag(name.as_slice(), output);
                    output.push(NEWLINE);
                    assert(xml_models(content@).len() == 0);
                    assert(output@ =~= start + pretty(self@, level as nat));
                    return;
                }
                if content.len() == 1 {
                    if let Xml::Text(text) = &content[0] {
                        push_indent(level, output);
                        push_open_tag(name.as_slice(), output);
                        push_units(text.as_slice(), output);
                        push_close_tag(name.as_slice(), output);
                        output.push(NEWLINE);
                        assert(xml_models(content@)[0] == XmlModel::Text(text@));
                        assert(output@ =~= start + pretty(self@, level as nat));
                        return;
                    }
                }
                assert(!(xml_models(content@).len() == 1 && xml_models(content@)[0] is Text));
                push_indent(level, output);
                push_open_tag(name.as_slice(), output);
                output.push(NEWLINE);
                let ghost mid = output@;
                let n = content.len();
                let mut i: usize = 0;
                while i < n
                    invariant
                        n == content@.len(),
                        i <= n,
                        level + depth(self@) <= usize::MAX,
                        *self == (Xml::Element { name: *name, content: *content }),
                        self@ == (XmlModel::Element { name: name@, content: xml_models(content@) }),
                        output@ == mid + pretty_seq(
                            xml_models(content@.take(i as int)),
                            level as nat + 1,
                        ),
                    decreases n - i,
                {
                    proof {
                        lemma_models_take(content@, i as int);
                        lemma_pretty_seq_push(
                            xml_models(content@.take(i as int)),
                            xml_model(content@[i as int]),
                            level as nat + 1,
                        );
                        lemma_models_index(content@);
                        lemma_depth_seq_index(xml_models(content@), i as int);
                    }
                    content[i].write_pretty(output, level + 1);
                    i = i + 1;
                }
                assert(content@.take(n as int) =~= content@);
                push_indent(level, output);
                push_close_tag(name.as_slice(), output);
                output.push(NEWLINE);
                assert(output@ =~= start + pretty(self@, level as nat));
            },
            Xml::Text(text) => {
                push_indent(level, output);
                push_units(text.as_slice(), output);
                output.push(NEWLINE);
                assert(output@ =~= start + pretty(self@, level as nat));
            },
        }
    }

    /// Serializes the tree with no added whitespace.
    pub fn to_os_string(&self) -> (res: Vec<u16>)
        ensures
            res@ == compact(self@),
    {
        let mut output: Vec<u16> = Vec::new();
        self.write_compact(&mut output);
        assert(output@ =~= compact(self@));
        output
    }

    /// Serializes the tree one node per line, indented by two spaces per
    /// nesting level.
    pub fn to_pretty_os_string(&self) -> (res: Vec<u16>)
        requires
            depth(self@) <= usize::MAX,
        ensures
            res@ == pretty(self@, 0),
    {
        let mut output: Vec<u16> = Vec::new();
        self.write_pretty(&mut output, 0);
        assert(output@ =~= pretty(self@, 0));
        output
    }
}

} // verus!
