//! XML notification documents, turned into JSON trees.
//!
//! The document is read into a list of events, and the events are then folded into a tree.
use crate::error::{Fault, PaymentError, PaymentResult};
use crate::json::{self, find_member, Json, Tree};
use crate::text::{self, concat2, concat3, owned, split_text, unsigned_text};
use quick_xml::events::{BytesStart, Event};
use vstd::prelude::*;
use vstd::utf8::*;

verus! {

/// An opening or an empty tag: its name, and its attributes in order. An attribute that is not
/// well formed, or that repeats an earlier one, stands as `None`.
#[derive(Debug)]
pub struct Tag {
    pub name: Vec<u8>,
    pub attributes: Vec<Option<(Vec<u8>, Vec<u8>)>>,
}

/// One event of an XML document.
#[derive(Debug)]
pub enum XmlEvent {
    /// An opening tag.
    Start(Tag),
    /// An empty tag.
    Empty(Tag),
    /// Character data, with its entities not resolved yet.
    Text(Vec<u8>),
    /// A CDATA section.
    CData(Vec<u8>),
    /// A closing tag.
    End,
    /// A declaration, a comment, a processing instruction or a document type.
    Skipped,
    /// The document is malformed here, with the reason.
    Broken(String),
}

/// The name and attributes of a tag.
pub struct TagToken {
    pub name: Seq<u8>,
    pub attributes: Seq<Option<(Seq<u8>, Seq<u8>)>>,
}

/// What an [`XmlEvent`] is.
pub enum XmlToken {
    Start(TagToken),
    Empty(TagToken),
    Text(Seq<u8>),
    CData(Seq<u8>),
    End,
    Skipped,
    Broken(Seq<char>),
}

/// The bytes of an attribute.
pub open spec fn attribute_token(a: Option<(Vec<u8>, Vec<u8>)>) -> Option<(Seq<u8>, Seq<u8>)> {
    match a {
        Some((k, v)) => Some((k@, v@)),
        None => None,
    }
}

impl Tag {
    pub open spec fn token(self) -> TagToken {
        TagToken {
            name: self.name@,
            attributes: self.attributes@.map_values(|a: Option<(Vec<u8>, Vec<u8>)>| attribute_token(a)),
        }
    }
}

impl XmlEvent {
    pub open spec fn token(self) -> XmlToken {
        match self {
            XmlEvent::Start(tag) => XmlToken::Start(tag.token()),
            XmlEvent::Empty(tag) => XmlToken::Empty(tag.token()),
            XmlEvent::Text(b) => XmlToken::Text(b@),
            XmlEvent::CData(b) => XmlToken::CData(b@),
            XmlEvent::End => XmlToken::End,
            XmlEvent::Skipped => XmlToken::Skipped,
            XmlEvent::Broken(t) => XmlToken::Broken(t@),
        }
    }
}

/// The tokens of a sequence of events.
pub open spec fn tokens(events: Seq<XmlEvent>) -> Seq<XmlToken> {
    events.map_values(|e: XmlEvent| e.token())
}

/// The streaming reader of `quick_xml`.
#[verifier::external_type_specification]
#[verifier::external_body]
#[verifier::reject_recursive_types(R)]
pub struct ExReader<R>(quick_xml::Reader<R>);

/// The events that a reader has yet to hand out: those up to the end of the document, or up to and
/// with the first place where it is malformed.
pub uninterp spec fn pending_events(reader: quick_xml::Reader<&[u8]>) -> Seq<XmlToken>;

/// The events of a document, read with leading and trailing white space of text removed.
pub uninterp spec fn document_events(xml: Seq<u8>) -> Seq<XmlToken>;

/// The text that bytes denote, with what is not UTF-8 replaced by U+FFFD.
pub uninterp spec fn utf8_lossy(bytes: Seq<u8>) -> Seq<char>;

/// The text that character data stands for, with its entities resolved, or why it stands for none.
pub uninterp spec fn unescaped(raw: Seq<u8>) -> Result<Seq<char>, Seq<char>>;

/// `quick_xml::Reader::from_reader` with `trim_text(true)`: a reader at the start of `xml`. What it
/// will hand out depends on the bytes alone.
#[verifier::external_body]
fn open_document(xml: &[u8]) -> (r: quick_xml::Reader<&[u8]>)
    ensures
        pending_events(r) == document_events(xml@),
{
    let mut reader = quick_xml::Reader::from_reader(xml);
    reader.config_mut().trim_text(true);
    reader
}

/// `quick_xml::Reader::read_event`: hands out the first pending event and keeps the others, or
/// says that none is left. A malformed place is the last of the pending events; where the reader
/// stands after it is left open. A tag comes with its `name` and its `attributes`.
#[verifier::external_body]
fn next_event(reader: &mut quick_xml::Reader<&[u8]>) -> (r: Result<Option<XmlEvent>, String>)
    ensures
        match r {
            Ok(Some(e)) => {
                &&& pending_events(*old(reader)).len() > 0
                &&& e.token() == pending_events(*old(reader))[0]
                &&& pending_events(*final(reader)) == pending_events(*old(reader)).skip(1)
            },
            Ok(None) => r is Ok && pending_events(*old(reader)).len() == 0,
            Err(reason) => pending_events(*old(reader)) == seq![XmlToken::Broken(reason@)],
        },
{
    let tag = |e: BytesStart| Tag {
        name: e.name().0.into(),
        attributes: e.attributes().map(|a| a.ok().map(|a| (a.key.0.into(), a.value.into()))).collect()
    };
    Ok(Some(match reader.read_event().map_err(|x| x.to_string())? {
        Event::Start(e) => XmlEvent::Start(tag(e)),
        Event::Empty(e) => XmlEvent::Empty(tag(e)),
        Event::Text(e) => XmlEvent::Text(e.to_vec()),
        Event::CData(e) => XmlEvent::CData(e.to_vec()),
        Event::End(_) => XmlEvent::End,
        Event::Eof => return Ok(None),
        _ => XmlEvent::Skipped
    }))
}

/// `decode` of `quick_xml`'s `Decoder` and `quick_xml::escape::unescape`, which is what `unescape`
/// of a text event does: the text with its entities resolved, or why it cannot be had. It depends
/// on the bytes alone.
#[verifier::external_body]
fn unescape_text(raw: &[u8]) -> (r: Result<String, String>)
    ensures
        match r {
            Ok(t) => unescaped(raw@) matches Ok(x) && t@ == x,
            Err(t) => unescaped(raw@) matches Err(x) && t@ == x,
        },
{
    let decoder = quick_xml::Reader::from_reader(raw).decoder();
    let decoded = decoder.decode(raw).map_err(|e| e.to_string())?;
    quick_xml::escape::unescape(&decoded).map(|t| t.into_owned()).map_err(|e| e.to_string())
}

/// `String::from_utf8_lossy`: the text that the bytes denote. It depends on the bytes alone, and
/// on UTF-8 it is what they encode.
#[verifier::external_body]
fn lossy_text(bytes: &[u8]) -> (r: String)
    ensures
        r@ == utf8_lossy(bytes@),
        valid_utf8(bytes@) ==> r@ == decode_utf8(bytes@),
{
    String::from_utf8_lossy(bytes).into_owned()
}

/// Reads all the events of a document.
pub fn read_events(xml: &[u8]) -> (r: Vec<XmlEvent>)
    ensures
        tokens(r@) == document_events(xml@),
{
    let mut reader = open_document(xml);
    let mut out: Vec<XmlEvent> = Vec::new();
    proof {
        assert(tokens(out@) + pending_events(reader) =~= document_events(xml@));
    }
    loop
        invariant
            tokens(out@) + pending_events(reader) == document_events(xml@),
        decreases pending_events(reader).len(),
    {
        let ghost before = tokens(out@);
        let ghost left = pending_events(reader);
        match next_event(&mut reader) {
            Ok(Some(event)) => {
                out.push(event);
                proof {
                    assert(tokens(out@) =~= before.push(left[0]));
                    assert(before + left =~= before.push(left[0]) + left.skip(1));
                }
            },
            Ok(None) => {
                proof {
                    assert(tokens(out@) + left =~= tokens(out@));
                }
                return out;
            },
            Err(reason) => {
                out.push(XmlEvent::Broken(reason));
                proof {
                    assert(tokens(out@) =~= before + left);
                }
                return out;
            },
        }
    }
}

/// Maximum element nesting accepted in a notification document. A gateway's own notifications nest
/// perhaps five levels.
pub const MAX_XML_DEPTH: usize = 64;

/// The name of a tag without its namespace prefix.
pub open spec fn local(name: Seq<u8>) -> Seq<char> {
    text::split(utf8_lossy(name), ':').last()
}

/// Whether the last well-formed attribute named `key` has the value `want`; without such an
/// attribute it does not.
pub open spec fn annotated(attributes: Seq<Option<(Seq<u8>, Seq<u8>)>>, key: Seq<u8>, want: Seq<u8>) -> bool
    decreases attributes.len(),
{
    if attributes.len() == 0 {
        false
    } else {
        match attributes.last() {
            Some((k, v)) => if k == key {
                v == want
            } else {
                annotated(attributes.drop_last(), key, want)
            },
            None => annotated(attributes.drop_last(), key, want),
        }
    }
}

/// Whether a tag is marked as an absent value, `nil="true"`.
pub open spec fn marked_nil(tag: TagToken) -> bool {
    annotated(tag.attributes, encode_utf8("nil"@), encode_utf8("true"@))
}

/// Whether a tag is marked as a collection, `type="array"`.
pub open spec fn marked_array(tag: TagToken) -> bool {
    annotated(tag.attributes, encode_utf8("type"@), encode_utf8("array"@))
}

/// What an empty tag stands for.
pub open spec fn empty_value(tag: TagToken) -> Tree {
    if marked_nil(tag) {
        Tree::Null
    } else if marked_array(tag) {
        Tree::Array(Seq::empty())
    } else {
        Tree::Text(Seq::empty())
    }
}

/// The members with one more child. A child whose name is taken joins the values under that name.
pub open spec fn with_child(members: Seq<(Seq<char>, Tree)>, name: Seq<char>, value: Tree) -> Seq<
    (Seq<char>, Tree),
> {
    let k = json::member_index(members, name);
    if k >= members.len() {
        members.push((name, value))
    } else {
        match members[k as int].1 {
            Tree::Array(items) => members.update(k as int, (name, Tree::Array(items.push(value)))),
            previous => members.update(k as int, (name, Tree::Array(seq![previous, value]))),
        }
    }
}

/// The members of the object made of the children, in the order in which their names first occur.
pub open spec fn collapsed(children: Seq<(Seq<char>, Tree)>) -> Seq<(Seq<char>, Tree)>
    decreases children.len(),
{
    if children.len() == 0 {
        Seq::empty()
    } else {
        with_child(collapsed(children.drop_last()), children.last().0, children.last().1)
    }
}

/// The value of an element with the given marks, text and children. A collection without items is
/// an empty array, however it is written; one that holds nothing but text is that text.
pub open spec fn assembled(nil: bool, array: bool, text: Seq<char>, children: Seq<(Seq<char>, Tree)>) -> Tree {
    if nil {
        Tree::Null
    } else if array && (children.len() > 0 || text.len() == 0) {
        Tree::Array(children.map_values(|c: (Seq<char>, Tree)| c.1))
    } else if children.len() == 0 {
        Tree::Text(text)
    } else {
        Tree::Object(collapsed(children))
    }
}

/// What the events from `at` on say of the element that was entered there: its value and the
/// position behind its closing tag, or the reason why it has none.
pub open spec fn element(ev: Seq<XmlToken>, at: int, nil: bool, array: bool, depth: nat) -> Result<
    (Tree, int),
    Seq<char>,
>
    decreases ev.len() - at, 1int,
{
    if depth > MAX_XML_DEPTH {
        Err(
            "Braintree notification XML nests deeper than "@ + text::int_text(MAX_XML_DEPTH as int)
                + " elements"@,
        )
    } else {
        match content(ev, at, depth, Seq::empty(), Seq::empty()) {
            Ok((text, children, next)) => Ok((assembled(nil, array, text, children), next)),
            Err(reason) => Err(reason),
        }
    }
}

/// What the events from `at` on add to the text and the children of an open element, up to its
/// closing tag.
pub open spec fn content(
    ev: Seq<XmlToken>,
    at: int,
    depth: nat,
    text: Seq<char>,
    children: Seq<(Seq<char>, Tree)>,
) -> Result<(Seq<char>, Seq<(Seq<char>, Tree)>, int), Seq<char>>
    decreases ev.len() - at, 0int,
{
    if at < 0 || at >= ev.len() {
        Err("Braintree notification XML ended inside an open element"@)
    } else {
        match ev[at] {
            XmlToken::Start(tag) => match element(
                ev,
                at + 1,
                marked_nil(tag),
                marked_array(tag),
                depth + 1,
            ) {
                Ok((value, next)) => if at < next <= ev.len() {
                    content(ev, next, depth, text, children.push((local(tag.name), value)))
                } else {
                    Err(Seq::empty())
                },
                Err(reason) => Err(reason),
            },
            XmlToken::Empty(tag) => content(
                ev,
                at + 1,
                depth,
                text,
                children.push((local(tag.name), empty_value(tag))),
            ),
            XmlToken::Text(b) => match unescaped(b) {
                Ok(t) => content(ev, at + 1, depth, text + t, children),
                Err(reason) => Err("malformed text in Braintree notification XML: "@ + reason),
            },
            XmlToken::CData(b) => content(ev, at + 1, depth, text + utf8_lossy(b), children),
            XmlToken::End => Ok((text, children, at + 1)),
            XmlToken::Skipped => content(ev, at + 1, depth, text, children),
            XmlToken::Broken(reason) => Err("malformed Braintree notification XML: "@ + reason),
        }
    }
}

/// An element ends behind the place where it was entered, and within the document.
pub proof fn element_advances(ev: Seq<XmlToken>, at: int, nil: bool, array: bool, depth: nat)
    requires
        0 <= at,
    ensures
        element(ev, at, nil, array, depth) matches Ok((v, next)) ==> at < next <= ev.len(),
    decreases ev.len() - at, 1int,
{
    if depth <= MAX_XML_DEPTH {
        content_advances(ev, at, depth, Seq::empty(), Seq::empty());
    }
}

proof fn content_advances(
    ev: Seq<XmlToken>,
    at: int,
    depth: nat,
    text: Seq<char>,
    children: Seq<(Seq<char>, Tree)>,
)
    requires
        0 <= at,
    ensures
        content(ev, at, depth, text, children) matches Ok((t, c, next)) ==> at < next <= ev.len(),
    decreases ev.len() - at, 0int,
{
    if at < ev.len() {
        match ev[at] {
            XmlToken::Start(tag) => {
                element_advances(ev, at + 1, marked_nil(tag), marked_array(tag), depth + 1);
                match element(ev, at + 1, marked_nil(tag), marked_array(tag), depth + 1) {
                    Ok((value, next)) => {
                        content_advances(ev, next, depth, text, children.push((local(tag.name), value)));
                    },
                    Err(reason) => {},
                }
            },
            XmlToken::Empty(tag) => {
                content_advances(
                    ev,
                    at + 1,
                    depth,
                    text,
                    children.push((local(tag.name), empty_value(tag))),
                );
            },
            XmlToken::Text(b) => match unescaped(b) {
                Ok(t) => {
                    content_advances(ev, at + 1, depth, text + t, children);
                },
                Err(reason) => {},
            },
            XmlToken::CData(b) => {
                content_advances(ev, at + 1, depth, text + utf8_lossy(b), children);
            },
            XmlToken::End => {},
            XmlToken::Skipped => {
                content_advances(ev, at + 1, depth, text, children);
            },
            XmlToken::Broken(reason) => {},
        }
    }
}

/// Whether two byte sequences are the same.
pub fn same_bytes(x: &[u8], y: &[u8]) -> (r: bool)
    ensures
        r == (x@ == y@),
{
    if x.len() != y.len() {
        return false;
    }
    let mut i: usize = 0;
    while i < x.len()
        invariant
            i <= x.len(),
            x.len() == y.len(),
            forall|j: int| 0 <= j < i ==> x@[j] == y@[j],
        decreases x.len() - i,
    {
        if x[i] != y[i] {
            proof {
                assert(x@[i as int] != y@[i as int]);
            }
            return false;
        }
        i += 1;
    }
    proof {
        assert(x@ =~= y@);
    }
    true
}

/// The name of a tag without its namespace prefix.
pub fn local_name(raw: &[u8]) -> (r: String)
    ensures
        r@ == local(raw@),
{
    let name = lossy_text(raw);
    let mut pieces = split_text(&name, ':');
    proof {
        assert(text::split(name@, ':').len() > 0);
    }
    let ghost all = text::texts(pieces@);
    match pieces.pop() {
        Some(last) => {
            proof {
                assert(all.last() == last@);
            }
            last
        },
        None => String::new(),
    }
}

/// Whether the last well-formed attribute named `key` has the value `want`.
fn has_annotation(attributes: &Vec<Option<(Vec<u8>, Vec<u8>)>>, key: &str, want: &str) -> (r: bool)
    ensures
        r == annotated(
            attributes@.map_values(|a: Option<(Vec<u8>, Vec<u8>)>| attribute_token(a)),
            encode_utf8(key@),
            encode_utf8(want@),
        ),
{
    let mut found: bool = false;
    let mut i: usize = 0;
    let ghost all = attributes@.map_values(|a: Option<(Vec<u8>, Vec<u8>)>| attribute_token(a));
    while i < attributes.len()
        invariant
            i <= attributes.len(),
            all == attributes@.map_values(|a: Option<(Vec<u8>, Vec<u8>)>| attribute_token(a)),
            found == annotated(all.take(i as int), encode_utf8(key@), encode_utf8(want@)),
        decreases attributes.len() - i,
    {
        proof {
            assert(all.take(i as int + 1).drop_last() =~= all.take(i as int));
            assert(all.take(i as int + 1).last() == attribute_token(attributes@[i as int]));
        }
        match &attributes[i] {
            Some((k, v)) => {
                if same_bytes(k, key.as_bytes()) {
                    found = same_bytes(v, want.as_bytes());
                }
            },
            None => {},
        }
        i += 1;
    }
    proof {
        assert(all.take(all.len() as int) =~= all);
    }
    found
}

/// The marks of a tag: whether it is nil, and whether it is an array.
pub fn element_hints(tag: &Tag) -> (r: (bool, bool))
    ensures
        r == (marked_nil(tag.token()), marked_array(tag.token())),
{
    (has_annotation(&tag.attributes, "nil", "true"), has_annotation(&tag.attributes, "type", "array"))
}

/// Adds a child to the members of an object.
fn add_child(members: &mut Vec<(String, Json)>, name: String, value: Json)
    ensures
        json::member_trees(final(members)@) == with_child(json::member_trees(old(members)@), name@, value.tree()),
{
    let ghost before = json::member_trees(members@);
    let k: usize = find_member(members, &name);
    if k == members.len() {
        members.push((name, value));
        proof {
            assert(json::member_trees(members@) =~= before.push((name@, value.tree())));
        }
        return ;
    }
    let ghost taken = members@[k as int];
    let (_, existing) = members.remove(k);
    proof {
        json::lemma_member_index_bound(before, name@);
        assert(before[k as int] == (name@, taken.1.tree()));
    }
    let joined = match existing {
        Json::Array(mut items) => {
            proof {
                json::lemma_array_tree(items);
            }
            let ghost was = json::trees(items@);
            items.push(value);
            proof {
                json::lemma_array_tree(items);
                assert(json::trees(items@) =~= was.push(value.tree()));
            }
            Json::Array(items)
        },
        previous => {
            let mut items: Vec<Json> = Vec::new();
            items.push(previous);
            items.push(value);
            proof {
                json::lemma_array_tree(items);
                assert(json::trees(items@) =~= seq![previous.tree(), value.tree()]);
            }
            Json::Array(items)
        },
    };
    members.insert(k, (name, joined));
    proof {
        assert(json::member_trees(members@) =~= before.update(k as int, (name@, joined.tree())));
    }
}

/// The object made of the children. Repeated sibling names join into an array, so no child is lost.
pub fn collapse(children: Vec<(String, Json)>) -> (r: Json)
    ensures
        r.tree() == Tree::Object(collapsed(json::member_trees(children@))),
{
    let ghost all = json::member_trees(children@);
    let mut members: Vec<(String, Json)> = Vec::new();
    proof {
        assert(json::member_trees(members@) =~= collapsed(all.take(0)));
    }
    for child in it: children
        invariant
            it.seq() == children@,
            all == json::member_trees(children@),
            json::member_trees(members@) == collapsed(all.take(it.index())),
    {
        proof {
            let i = it.index();
            assert(all.take(i + 1).drop_last() =~= all.take(i));
            assert(all.take(i + 1).last() == (child.0@, child.1.tree()));
        }
        add_child(&mut members, child.0, child.1);
    }
    proof {
        assert(all.take(all.len() as int) =~= all);
        json::lemma_object_tree(members);
    }
    Json::Object(members)
}

/// The values of the children, without their names.
fn values_of(children: Vec<(String, Json)>) -> (r: Vec<Json>)
    ensures
        json::trees(r@) == json::member_trees(children@).map_values(|c: (Seq<char>, Tree)| c.1),
{
    let ghost all = json::member_trees(children@).map_values(|c: (Seq<char>, Tree)| c.1);
    let mut values: Vec<Json> = Vec::new();
    for child in it: children
        invariant
            it.seq() == children@,
            all == json::member_trees(children@).map_values(|c: (Seq<char>, Tree)| c.1),
            json::trees(values@) == all.take(it.index()),
    {
        let ghost before = json::trees(values@);
        values.push(child.1);
        proof {
            let i = it.index();
            assert(json::trees(values@) =~= before.push(child.1.tree()));
            assert(all.take(i + 1) =~= all.take(i).push(all[i]));
        }
    }
    proof {
        assert(all.take(all.len() as int) =~= all);
    }
    values
}

/// The value of an element with the given marks, text and children.
fn assemble(nil: bool, array: bool, text: String, children: Vec<(String, Json)>) -> (r: Json)
    ensures
        r.tree() == assembled(nil, array, text@, json::member_trees(children@)),
{
    if nil {
        return Json::Null;
    }
    if array && (children.len() > 0 || text.as_str().unicode_len() == 0) {
        let values = values_of(children);
        proof {
            json::lemma_array_tree(values);
        }
        return Json::Array(values);
    }
    if children.len() == 0 {
        return Json::Text(text);
    }
    collapse(children)
}

/// Reads the element that was entered at position `at`: its value, and the position behind its
/// closing tag.
pub fn read_element(events: &Vec<XmlEvent>, at: usize, nil: bool, array: bool, depth: usize) -> (r: PaymentResult<
    (Json, usize),
>)
    requires
        at <= events.len(),
    ensures
        match r {
            Ok((value, next)) => {
                &&& element(tokens(events@), at as int, nil, array, depth as nat) == Ok::<(Tree, int), Seq<char>>(
                    (value.tree(), next as int),
                )
                &&& at < next <= events.len()
            },
            Err(e) => element(tokens(events@), at as int, nil, array, depth as nat) matches Err(reason) && e@
                == Fault::Serialization(reason),
        },
    decreases events.len() - at,
{
    if depth > MAX_XML_DEPTH {
        let shown = unsigned_text(MAX_XML_DEPTH as u64);
        return Err(
            PaymentError::Serialization(
                concat3("Braintree notification XML nests deeper than ", &shown, " elements"),
            ),
        );
    }
    let ghost ev = tokens(events@);
    let mut text = String::new();
    let mut children: Vec<(String, Json)> = Vec::new();
    let mut i: usize = at;
    proof {
        assert(json::member_trees(children@) =~= Seq::<(Seq<char>, Tree)>::empty());
        element_advances(ev, at as int, nil, array, depth as nat);
    }
    let ghost whole = content(ev, at as int, depth as nat, Seq::empty(), Seq::empty());
    while i < events.len()
        invariant
            at <= i <= events.len(),
            depth <= MAX_XML_DEPTH,
            ev == tokens(events@),
            whole == content(ev, at as int, depth as nat, Seq::empty(), Seq::empty()),
            whole == content(ev, i as int, depth as nat, text@, json::member_trees(children@)),
            element(ev, at as int, nil, array, depth as nat) == (match whole {
                Ok((t, c, next)) => Ok::<(Tree, int), Seq<char>>((assembled(nil, array, t, c), next)),
                Err(reason) => Err(reason),
            }),
        decreases events.len() - i,
    {
        let ghost so_far = json::member_trees(children@);
        proof {
            assert(ev[i as int] == events@[i as int].token());
        }
        match &events[i] {
            XmlEvent::Start(tag) => {
                let (child_nil, child_array) = element_hints(tag);
                let name = local_name(&tag.name);
                match read_element(events, i + 1, child_nil, child_array, depth + 1) {
                    Ok((value, next)) => {
                        children.push((name, value));
                        proof {
                            assert(json::member_trees(children@) =~= so_far.push((name@, value.tree())));
                        }
                        i = next;
                    },
                    Err(e) => return Err(e),
                }
            },
            XmlEvent::Empty(tag) => {
                let (child_nil, child_array) = element_hints(tag);
                let name = local_name(&tag.name);
                let value = if child_nil {
                    Json::Null
                } else if child_array {
                    let none: Vec<Json> = Vec::new();
                    proof {
                        json::lemma_array_tree(none);
                        assert(json::trees(none@) =~= Seq::<Tree>::empty());
                    }
                    Json::Array(none)
                } else {
                    Json::Text(String::new())
                };
                children.push((name, value));
                proof {
                    assert(json::member_trees(children@) =~= so_far.push((name@, value.tree())));
                }
                i += 1;
            },
            XmlEvent::Text(raw) => {
                match unescape_text(raw) {
                    Ok(t) => {
                        text.append(&t);
                    },
                    Err(reason) => {
                        return Err(
                            PaymentError::Serialization(
                                concat2("malformed text in Braintree notification XML: ", &reason),
                            ),
                        );
                    },
                }
                i += 1;
            },
            XmlEvent::CData(bytes) => {
                let decoded = lossy_text(bytes);
                text.append(&decoded);
                i += 1;
            },
            XmlEvent::End => {
                return Ok((assemble(nil, array, text, children), i + 1));
            },
            XmlEvent::Skipped => {
                i += 1;
            },
            XmlEvent::Broken(reason) => {
                return Err(
                    PaymentError::Serialization(concat2("malformed Braintree notification XML: ", reason)),
                );
            },
        }
    }
    Err(PaymentError::Serialization(owned("Braintree notification XML ended inside an open element")))
}

/// An element that is opened and closed with nothing inside says what an empty tag with the same
/// marks says.
pub proof fn nothing_inside_is_an_empty_tag(tag: TagToken)
    ensures
        assembled(marked_nil(tag), marked_array(tag), Seq::empty(), Seq::empty()) == empty_value(tag),
{
    let none = Seq::<(Seq<char>, Tree)>::empty();
    assert(none.map_values(|c: (Seq<char>, Tree)| c.1) =~= Seq::<Tree>::empty());
}

/// Whether the value under a name holds `value`: it is that value, or an array that has it as an
/// item, or an array that continues it.
pub open spec fn holds(t: Tree, value: Tree) -> bool {
    ||| t == value
    ||| t matches Tree::Array(items) && {
        ||| items.contains(value)
        ||| value matches Tree::Array(own) && own.is_prefix_of(items)
    }
}

/// Whether some member named `name` holds `value`.
pub open spec fn kept(members: Seq<(Seq<char>, Tree)>, name: Seq<char>, value: Tree) -> bool {
    exists|j: int| 0 <= j < members.len() && (#[trigger] members[j]).0 == name && holds(members[j].1, value)
}

proof fn lemma_with_child_keeps(
    members: Seq<(Seq<char>, Tree)>,
    name: Seq<char>,
    value: Tree,
    n: Seq<char>,
    v: Tree,
)
    requires
        kept(members, n, v),
    ensures
        kept(with_child(members, name, value), n, v),
{
    let after = with_child(members, name, value);
    let k = json::member_index(members, name) as int;
    json::lemma_member_index_bound(members, name);
    let j = choose|j: int|
        0 <= j < members.len() && (#[trigger] members[j]).0 == n && holds(members[j].1, v);
    if k < members.len() && j == k {
        match members[k].1 {
            Tree::Array(items) => {
                let grown = items.push(value);
                assert(after[k].1 == Tree::Array(grown));
                if items.contains(v) {
                    let x = choose|x: int| 0 <= x < items.len() && items[x] == v;
                    assert(grown[x] == v);
                }
                assert(after[j].0 == n && holds(after[j].1, v));
            },
            previous => {
                let pair = seq![previous, value];
                assert(after[k].1 == Tree::Array(pair));
                assert(pair[0] == v);
                assert(after[j].0 == n && holds(after[j].1, v));
            },
        }
    } else {
        assert(after[j] == members[j]);
    }
}

proof fn lemma_with_child_holds(members: Seq<(Seq<char>, Tree)>, name: Seq<char>, value: Tree)
    ensures
        kept(with_child(members, name, value), name, value),
{
    let after = with_child(members, name, value);
    let k = json::member_index(members, name) as int;
    json::lemma_member_index_bound(members, name);
    if k >= members.len() {
        assert(after[members.len() as int] == (name, value));
    } else {
        match members[k].1 {
            Tree::Array(items) => {
                let grown = items.push(value);
                assert(grown[items.len() as int] == value);
                assert(after[k] == (name, Tree::Array(grown)));
            },
            previous => {
                let pair = seq![previous, value];
                assert(pair[1] == value);
                assert(after[k] == (name, Tree::Array(pair)));
            },
        }
    }
}

/// No child of an element is lost: the object made of the children has, under the name of each
/// child, a value that holds that child.
pub proof fn no_child_is_lost(children: Seq<(Seq<char>, Tree)>, i: int)
    requires
        0 <= i < children.len(),
    ensures
        kept(collapsed(children), children[i].0, children[i].1),
    decreases children.len(),
{
    let before = collapsed(children.drop_last());
    let last = children.last();
    if i == children.len() - 1 {
        lemma_with_child_holds(before, last.0, last.1);
    } else {
        no_child_is_lost(children.drop_last(), i);
        assert(children.drop_last()[i] == children[i]);
        lemma_with_child_keeps(before, last.0, last.1, children[i].0, children[i].1);
    }
}

/// The names of the object made of the children are distinct, and each is the name of a child.
pub proof fn collapsed_names(children: Seq<(Seq<char>, Tree)>)
    ensures
        forall|i: int, j: int|
            0 <= i < j < collapsed(children).len() ==> (#[trigger] collapsed(children)[i]).0 != (
            #[trigger] collapsed(children)[j]).0,
        forall|i: int|
            0 <= i < collapsed(children).len() ==> exists|c: int|
                0 <= c < children.len() && (#[trigger] children[c]).0 == (#[trigger] collapsed(children)[i]).0,
    decreases children.len(),
{
    if children.len() > 0 {
        let earlier = children.drop_last();
        collapsed_names(earlier);
        let before = collapsed(earlier);
        let name = children.last().0;
        let after = collapsed(children);
        json::lemma_member_index_bound(before, name);
        assert forall|i: int, j: int| 0 <= i < j < after.len() implies (#[trigger] after[i]).0 != (
        #[trigger] after[j]).0 by {
            if json::member_index(before, name) >= before.len() && j == before.len() {
                assert(before[i].0 != name);
            } else {
                assert(before[i].0 != before[j].0);
            }
        }
        assert forall|i: int| 0 <= i < after.len() implies exists|c: int|
            0 <= c < children.len() && (#[trigger] children[c]).0 == (#[trigger] after[i]).0 by {
            if i == before.len() {
                assert(children[children.len() - 1].0 == after[i].0);
            } else {
                assert(before[i].0 == after[i].0);
                let c = choose|c: int| 0 <= c < earlier.len() && (#[trigger] earlier[c]).0 == before[i].0;
                assert(children[c] == earlier[c]);
            }
        }
    }
}

/// Of the attributes of a tag, the last with the name counts, and one that is not well formed does not.
pub proof fn last_attribute_counts(
    attributes: Seq<Option<(Seq<u8>, Seq<u8>)>>,
    name: Seq<u8>,
    value: Seq<u8>,
    key: Seq<u8>,
    want: Seq<u8>,
)
    ensures
        !annotated(Seq::empty(), key, want),
        annotated(attributes.push(None), key, want) == annotated(attributes, key, want),
        name == key ==> (annotated(attributes.push(Some((name, value))), key, want) <==> value == want),
        name != key ==> annotated(attributes.push(Some((name, value))), key, want) == annotated(attributes, key, want),
{
    assert(attributes.push(None).drop_last() =~= attributes);
    assert(attributes.push(Some((name, value))).drop_last() =~= attributes);
}

/// A tag is marked as absent by `nil="true"`, and as a collection by `type="array"`. An empty tag is
/// nothing, an empty list or an empty text, as it is marked.
pub proof fn marks_are_read_by_name(tag: TagToken)
    ensures
        marked_nil(tag) <==> annotated(tag.attributes, encode_utf8("nil"@), encode_utf8("true"@)),
        marked_array(tag) <==> annotated(tag.attributes, encode_utf8("type"@), encode_utf8("array"@)),
        marked_nil(tag) ==> empty_value(tag) == Tree::Null,
        !marked_nil(tag) && marked_array(tag) ==> empty_value(tag) == Tree::Array(Seq::<Tree>::empty()),
        !marked_nil(tag) && !marked_array(tag) ==> empty_value(tag) == Tree::Text(Seq::<char>::empty()),
{
}

/// The name of a tag is what stands behind its last colon, or all of it where it has none.
pub proof fn local_name_is_behind_the_colon(name: Seq<u8>) -> (prefix: Seq<char>)
    ensures
        text::lacks(local(name), ':'),
        utf8_lossy(name) == local(name) || utf8_lossy(name) == prefix + seq![':'] + local(name),
{
    let all = utf8_lossy(name);
    let pieces = text::split(all, ':');
    text::pieces_join_again(all, ':');
    assert(text::lacks(pieces[pieces.len() - 1], ':'));
    text::join(pieces.drop_last(), seq![':'])
}

/// The value of an element: nothing where it is marked as absent; its children in order where it is
/// marked as a collection; its text where it has no children; and otherwise an object of its children.
pub proof fn element_is_what_it_holds(nil: bool, array: bool, text: Seq<char>, children: Seq<(Seq<char>, Tree)>, i: int)
    ensures
        nil ==> assembled(nil, array, text, children) == Tree::Null,
        !nil && array && children.len() > 0 ==> (assembled(nil, array, text, children) matches Tree::Array(items)
            && items.len() == children.len() && (0 <= i < children.len() ==> items[i] == children[i].1)),
        !nil && !array && children.len() == 0 ==> assembled(nil, array, text, children) == Tree::Text(text),
        !nil && array && children.len() == 0 && text.len() > 0 ==> assembled(nil, array, text, children) == Tree::Text(
            text,
        ),
        !nil && !array && children.len() > 0 ==> (assembled(nil, array, text, children) matches Tree::Object(members)
            && members == collapsed(children)),
{
}

/// A child with a new name is a member of its own behind the others. One whose name is taken joins
/// what is there in a list, at its end, and no other member changes.
pub proof fn children_of_one_name_are_listed(members: Seq<(Seq<char>, Tree)>, name: Seq<char>, value: Tree, other: Seq<char>)
    ensures
        ({
            let after = Tree::Object(with_child(members, name, value));
            let before = Tree::Object(members);
            &&& json::member(before, name) is None ==> json::member(after, name) == Some(value)
            &&& json::member(before, name) matches Some(Tree::Array(items)) ==> json::member(after, name) == Some(
                Tree::Array(items.push(value)),
            )
            &&& json::member(before, name) matches Some(t) ==> (!(t is Array) ==> json::member(after, name) == Some(
                Tree::Array(seq![t, value]),
            ))
            &&& other != name ==> json::member(after, other) == json::member(before, other)
        }),
{
    let after = with_child(members, name, value);
    json::lemma_member_index_bound(members, name);
    json::lemma_member_index_bound(members, other);
    let k = json::member_index(members, name);
    let m = json::member_index(members, other);
    assert forall|i: int| 0 <= i < k implies (#[trigger] after[i]).0 != name by {
        assert(after[i] == members[i]);
    }
    json::lemma_member_index(after, name, k);
    if other != name {
        assert forall|i: int| 0 <= i < m implies (#[trigger] after[i]).0 != other by {
            if i != k {
                assert(after[i] == members[i]);
            }
        }
        if m < members.len() {
            json::lemma_member_index(after, other, m);
        } else {
            assert forall|i: int| 0 <= i < after.len() implies (#[trigger] after[i]).0 != other by {
                if i != k && i < members.len() {
                    assert(after[i] == members[i]);
                    assert(members[i].0 != other);
                }
            }
            json::lemma_member_index(after, other, after.len());
        }
    }
}

/// What each event adds to an open element: a tag adds a child by its name, text adds its characters
/// with their entities resolved, and a CDATA section adds them as they are. A closing tag ends the
/// element, comments and the like add nothing, and a malformed place is an error.
pub proof fn events_add_to_the_element(
    ev: Seq<XmlToken>,
    at: int,
    depth: nat,
    text: Seq<char>,
    children: Seq<(Seq<char>, Tree)>,
)
    requires
        0 <= at < ev.len(),
    ensures
        ({
            let read = content(ev, at, depth, text, children);
            &&& ev[at] is End ==> read == Ok::<_, Seq<char>>((text, children, at + 1))
            &&& ev[at] is Skipped ==> read == content(ev, at + 1, depth, text, children)
            &&& ev[at] is Broken ==> read is Err
            &&& ev[at] matches XmlToken::CData(b) ==> read == content(
                ev,
                at + 1,
                depth,
                text + utf8_lossy(b),
                children,
            )
            &&& ev[at] matches XmlToken::Text(b) ==> (unescaped(b) matches Ok(t) ==> read == content(
                ev,
                at + 1,
                depth,
                text + t,
                children,
            ))
            &&& ev[at] matches XmlToken::Text(b) ==> (unescaped(b) is Err ==> read is Err)
            &&& ev[at] matches XmlToken::Empty(tag) ==> read == content(
                ev,
                at + 1,
                depth,
                text,
                children.push((local(tag.name), empty_value(tag))),
            )
            &&& ev[at] matches XmlToken::Start(tag) ==> {
                let inner = element(ev, at + 1, marked_nil(tag), marked_array(tag), depth + 1);
                &&& inner is Err ==> read is Err
                &&& inner matches Ok((value, next)) ==> read == content(
                    ev,
                    next,
                    depth,
                    text,
                    children.push((local(tag.name), value)),
                )
            }
        }),
        content(ev, ev.len() as int, depth, text, children) is Err,
{
    match ev[at] {
        XmlToken::Start(tag) => {
            element_advances(ev, at + 1, marked_nil(tag), marked_array(tag), depth + 1);
        },
        _ => {},
    }
}

/// Elements are read to a depth of sixty-four, and no deeper.
pub proof fn depth_is_bounded(ev: Seq<XmlToken>, at: int, nil: bool, array: bool, depth: nat)
    ensures
        depth > 64 ==> element(ev, at, nil, array, depth) is Err,
        depth <= 64 ==> (element(ev, at, nil, array, depth) is Ok <==> content(ev, at, depth, Seq::empty(), Seq::empty())
            is Ok),
        depth <= 64 ==> (content(ev, at, depth, Seq::empty(), Seq::empty()) matches Ok((text, children, next))
            ==> element(ev, at, nil, array, depth) == Ok::<_, Seq<char>>((assembled(nil, array, text, children), next))),
{
}

/// What an event is said to be is what it is.
pub proof fn events_are_what_they_are(e: XmlEvent, tag: Tag, i: int)
    requires
        0 <= i < tag.attributes@.len(),
    ensures
        e matches XmlEvent::Start(t) ==> e.token() == XmlToken::Start(t.token()),
        e matches XmlEvent::Empty(t) ==> e.token() == XmlToken::Empty(t.token()),
        e matches XmlEvent::Text(b) ==> e.token() == XmlToken::Text(b@),
        e matches XmlEvent::CData(b) ==> e.token() == XmlToken::CData(b@),
        e is End ==> e.token() == XmlToken::End,
        e is Skipped ==> e.token() == XmlToken::Skipped,
        e matches XmlEvent::Broken(t) ==> e.token() == XmlToken::Broken(t@),
        tag.token().name == tag.name@,
        tag.token().attributes.len() == tag.attributes@.len(),
        tag.attributes@[i] is None ==> tag.token().attributes[i] is None,
        tag.attributes@[i] matches Some((k, v)) ==> tag.token().attributes[i] == Some((k@, v@)),
{
}

} // verus!
