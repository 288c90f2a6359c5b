//! Flattening of SOAP answers into a table from element name to element text.
use vstd::prelude::*;
use crate::errors::VerificationError;
use crate::json::{field, Json, JsonView};
use crate::text::{blank, is_blank, str_eq};

verus! {

/// An element of a parsed document: its local name (empty for nodes that are not
/// elements) and the text that is its first child, if any.
pub type XmlNode = (String, Option<String>);

/// The named result of parsing XML text: its nodes in document order, where it parses.
pub uninterp spec fn xml_nodes_of(text: Seq<char>) -> Option<Seq<(Seq<char>, Option<Seq<char>>)>>;

/// Relies on roxmltree's `Document::parse`, `descendants`, `tag_name` and `text`: the
/// document's nodes in document order, each with its local name and its text.
#[verifier::external_body]
fn parse_nodes(text: &str) -> (r: Result<Vec<XmlNode>, roxmltree::Error>)
    ensures
        r is Ok <==> xml_nodes_of(text@) is Some,
        r matches Ok(v) ==> xml_nodes_of(text@) == Some(v.deep_view()),
{
    let doc = roxmltree::Document::parse(text)?;
    Ok(doc.descendants().map(|n| (n.tag_name().name().to_string(), n.text().map(|t| t.to_string()))).collect())
}

/// The nodes of an XML body, or `XmlParsingError`.
pub fn xml_nodes(text: &str) -> (r: Result<Vec<XmlNode>, VerificationError>)
    ensures
        r is Ok <==> xml_nodes_of(text@) is Some,
        r matches Ok(v) ==> xml_nodes_of(text@) == Some(v.deep_view()),
        r matches Err(e) ==> e is XmlParsingError,
{
    match parse_nodes(text) {
        Ok(v) => Ok(v),
        Err(e) => Err(VerificationError::XmlParsingError(e)),
    }
}

/// A table: names with values, each name at most once, in order of first insertion.
pub type Fields = Seq<(Seq<char>, Option<Seq<char>>)>;

/// The position of `k` in `s`, or -1.
pub open spec fn key_pos(s: Fields, k: Seq<char>) -> int
    decreases s.len(),
{
    if s.len() == 0 {
        -1
    } else if s.last().0 == k {
        s.len() - 1
    } else {
        key_pos(s.drop_last(), k)
    }
}

/// `key_pos` names a position of `s` that holds `k`, or -1.
pub proof fn lemma_key_pos(s: Fields, k: Seq<char>)
    ensures
        -1 <= key_pos(s, k) < s.len(),
        key_pos(s, k) >= 0 ==> s[key_pos(s, k)].0 == k,
    decreases s.len(),
{
    if s.len() > 0 {
        lemma_key_pos(s.drop_last(), k);
    }
}

/// `s` with `k` set to `v`: replaced in place where present, added at the end otherwise.
pub open spec fn put(s: Fields, k: Seq<char>, v: Option<Seq<char>>) -> Fields {
    let p = key_pos(s, k);
    if p >= 0 {
        s.update(p, (k, v))
    } else {
        s.push((k, v))
    }
}

/// The value that `s` holds under `k`, if any.
pub open spec fn get(s: Fields, k: Seq<char>) -> Option<Option<Seq<char>>> {
    let p = key_pos(s, k);
    if p >= 0 {
        Some(s[p].1)
    } else {
        None
    }
}

/// The text that `s` holds under `k`; none where the name is absent or marked absent.
pub open spec fn text_of(s: Fields, k: Seq<char>) -> Option<Seq<char>> {
    match get(s, k) {
        Some(Some(t)) => Some(t),
        _ => None,
    }
}

/// Whether `t` is one of the names in `ex`.
pub open spec fn listed(ex: Seq<&str>, t: Seq<char>) -> bool {
    exists|i: int| 0 <= i < ex.len() && (#[trigger] ex[i])@ == t
}

/// The table of the elements among `nodes`: every node with a non-blank name that is
/// not excluded and that has text contributes its text under its name, later nodes
/// overriding earlier ones. Where `dashes_absent` holds, the text `---` is recorded as
/// absent rather than as text.
pub open spec fn fields_of(
    nodes: Seq<(Seq<char>, Option<Seq<char>>)>,
    excluded: Seq<&str>,
    dashes_absent: bool,
) -> Fields
    decreases nodes.len(),
{
    if nodes.len() == 0 {
        Seq::empty()
    } else {
        let prev = fields_of(nodes.drop_last(), excluded, dashes_absent);
        let (tag, text) = nodes.last();
        if is_blank(tag) || listed(excluded, tag) || text is None {
            prev
        } else if dashes_absent && text == Some("---"@) {
            put(prev, tag, None)
        } else {
            put(prev, tag, text)
        }
    }
}

/// A table as a JSON object: a text as a string, an absent value as null.
pub open spec fn fields_json(s: Fields) -> JsonView {
    JsonView::Object(
        Seq::new(
            s.len(),
            |i: int|
                (
                    s[i].0,
                    match s[i].1 {
                        Some(t) => JsonView::Str(t),
                        None => JsonView::Null,
                    },
                ),
        ),
    )
}

fn is_listed(ex: &Vec<&str>, t: &str) -> (r: bool)
    ensures
        r == listed(ex@, t@),
{
    let mut i: usize = 0;
    while i < ex.len()
        invariant
            i <= ex@.len(),
            forall|j: int| 0 <= j < i ==> (#[trigger] ex@[j])@ != t@,
        decreases ex@.len() - i,
    {
        if str_eq(ex[i], t) {
            return true;
        }
        i = i + 1;
    }
    false
}

/// The position of `k` in `s`, if present.
fn find(s: &Vec<XmlNode>, k: &str) -> (r: Option<usize>)
    ensures
        match r {
            Some(p) => key_pos(s.deep_view(), k@) == p as int,
            None => key_pos(s.deep_view(), k@) == -1,
        },
{
    let ghost d = s.deep_view();
    let mut i: usize = s.len();
    assert(d.subrange(0, d.len() as int) =~= d);
    while i > 0
        invariant
            i <= s@.len(),
            d == s.deep_view(),
            d.len() == s@.len(),
            key_pos(d, k@) == key_pos(d.subrange(0, i as int), k@),
        decreases i,
    {
        let ghost pre = d.subrange(0, i as int);
        assert(pre.drop_last() =~= d.subrange(0, i - 1));
        if str_eq(s[i - 1].0.as_str(), k) {
            return Some(i - 1);
        }
        i = i - 1;
    }
    None
}

fn put_field(s: &mut Vec<XmlNode>, k: String, v: Option<String>)
    ensures
        final(s).deep_view() == put(old(s).deep_view(), k@, v.deep_view()),
{
    proof {
        lemma_key_pos(old(s).deep_view(), k@);
    }
    match find(s, k.as_str()) {
        Some(p) => {
            s.set(p, (k, v));
        },
        None => {
            s.push((k, v));
        },
    }
    assert(final(s).deep_view() =~= put(old(s).deep_view(), k@, v.deep_view()));
}

/// The table of the elements among `nodes` (see `fields_of`).
pub fn fields(nodes: &Vec<XmlNode>, excluded: &Vec<&str>, dashes_absent: bool) -> (r: Vec<XmlNode>)
    ensures
        r.deep_view() == fields_of(nodes.deep_view(), excluded@, dashes_absent),
{
    let ghost d = nodes.deep_view();
    let mut out: Vec<XmlNode> = Vec::new();
    let mut i: usize = 0;
    assert(d.subrange(0, 0) =~= Seq::<(Seq<char>, Option<Seq<char>>)>::empty());
    assert(out.deep_view() =~= Seq::<(Seq<char>, Option<Seq<char>>)>::empty());
    while i < nodes.len()
        invariant
            i <= nodes@.len(),
            d == nodes.deep_view(),
            out.deep_view() == fields_of(d.subrange(0, i as int), excluded@, dashes_absent),
        decreases nodes@.len() - i,
    {
        assert(d.subrange(0, i + 1).drop_last() =~= d.subrange(0, i as int));
        let tag = &nodes[i].0;
        let keep = !blank(tag.as_str()) && !is_listed(excluded, tag.as_str());
        if keep {
            match &nodes[i].1 {
                Some(t) => {
                    if dashes_absent && str_eq(t.as_str(), "---") {
                        put_field(&mut out, tag.clone(), None);
                    } else {
                        put_field(&mut out, tag.clone(), Some(t.clone()));
                    }
                },
                None => {},
            }
        }
        i = i + 1;
    }
    assert(d.subrange(0, nodes@.len() as int) =~= d);
    out
}

/// The text held under `k`, if any.
pub fn text_under<'a>(s: &'a Vec<XmlNode>, k: &str) -> (r: Option<&'a str>)
    ensures
        match r {
            Some(t) => text_of(s.deep_view(), k@) == Some(t@),
            None => text_of(s.deep_view(), k@) is None,
        },
{
    proof {
        lemma_key_pos(s.deep_view(), k@);
    }
    match find(s, k) {
        Some(p) => match &s[p].1 {
            Some(t) => Some(t.as_str()),
            None => None,
        },
        None => None,
    }
}

/// The table as a JSON object.
pub fn to_json(s: &Vec<XmlNode>) -> (r: Json)
    ensures
        r@ == fields_json(s.deep_view()),
{
    let ghost d = s.deep_view();
    let mut out: Vec<(String, Json)> = Vec::new();
    let mut i: usize = 0;
    while i < s.len()
        invariant
            i <= s@.len(),
            d == s.deep_view(),
            out@.len() == i,
            forall|m: int| 0 <= m < i ==> (#[trigger] out@[m]).0@ == d[m].0 && out@[m].1@ == (
            match d[m].1 {
                Some(t) => JsonView::Str(t),
                None => JsonView::Null,
            }),
        decreases s@.len() - i,
    {
        let x = match &s[i].1 {
            Some(t) => Json::Str(t.clone()),
            None => Json::Null,
        };
        out.push((s[i].0.clone(), x));
        i = i + 1;
    }
    let r = Json::Object(out);
    assert(r@->Object_0 =~= fields_json(d)->Object_0);
    r
}

/// `key_pos` reads only the names of a table.
proof fn lemma_key_pos_names(s1: Fields, s2: Fields, k: Seq<char>)
    requires
        s1.len() == s2.len(),
        forall|i: int| 0 <= i < s1.len() ==> (#[trigger] s1[i]).0 == s2[i].0,
    ensures
        key_pos(s1, k) == key_pos(s2, k),
    decreases s1.len(),
{
    if s1.len() > 0 {
        lemma_key_pos_names(s1.drop_last(), s2.drop_last(), k);
    }
}

/// After `put`, a table holds the value put under its name.
pub proof fn lemma_get_put(s: Fields, k: Seq<char>, v: Option<Seq<char>>)
    ensures
        get(put(s, k, v), k) == Some(v),
{
    lemma_key_pos(s, k);
    let p = key_pos(s, k);
    if p >= 0 {
        lemma_key_pos_names(s, s.update(p, (k, v)), k);
    } else {
        assert(s.push((k, v)).drop_last() =~= s);
    }
}

/// Looking a name up in the JSON object of a table gives what the table holds under it,
/// a text as a string and an absent value as null.
pub proof fn lemma_json_member(s: Fields, k: Seq<char>)
    ensures
        field(fields_json(s)->Object_0, k) == match get(s, k) {
            Some(Some(t)) => Some(JsonView::Str(t)),
            Some(None) => Some(JsonView::Null),
            None => None,
        },
    decreases s.len(),
{
    if s.len() > 0 {
        lemma_json_member(s.drop_last(), k);
        lemma_key_pos(s.drop_last(), k);
        assert(fields_json(s)->Object_0.drop_last() =~= fields_json(s.drop_last())->Object_0);
        if s.last().0 != k {
            let p = key_pos(s.drop_last(), k);
            if p >= 0 {
                assert(s[p] == s.drop_last()[p]);
            }
        }
    }
}

} // verus!
