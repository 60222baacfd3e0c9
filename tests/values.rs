use html5ever_bridge::attrs::{
    html5ever_attribute_iterator_count, html5ever_attribute_iterator_next, CAttributeIterator,
};
use html5ever_bridge::session::{accept_chunk, one_shot_accepts, SessionState, StreamSession};
use html5ever_bridge::types::{
    Attribute, CAttribute, CNodeOrText, CNullable, CQualName, QualifiedName, Ref, Slice,
    StringSlice,
};
use html5ever_bridge::Memory;

fn qname(prefix: Option<&str>, ns: &str, local: &str) -> QualifiedName {
    QualifiedName {
        prefix: prefix.map(|p| p.as_bytes().to_vec()),
        ns: ns.as_bytes().to_vec(),
        local: local.as_bytes().to_vec(),
    }
}

fn attr(local: &str, value: &str) -> Attribute {
    Attribute { name: qname(None, "", local), value: value.as_bytes().to_vec() }
}

#[test]
fn nullable_none_has_tag_zero_and_default_payload() {
    let n: CNullable<usize> = CNullable::none();
    assert_eq!(n.tag, 0);
    assert_eq!(n.value, 0);
}

#[test]
fn nullable_some_has_tag_one_and_payload() {
    let n: CNullable<usize> = CNullable::some(42);
    assert_eq!(n.tag, 1);
    assert_eq!(n.value, 42);
}

#[test]
fn slice_default_is_empty() {
    let s: StringSlice = Slice::default();
    assert_eq!(s.len(), 0);
    assert!(s.data.is_empty());
}

#[test]
fn slice_views_its_bytes_in_place() {
    let bytes = b"abc".to_vec();
    let s = Slice::new(bytes.as_slice());
    assert_eq!(s.len(), 3);
    assert!(std::ptr::eq(s.data.as_ptr(), bytes.as_ptr()));
}

#[test]
fn qualified_name_view_without_prefix() {
    let q = qname(None, "http://www.w3.org/1999/xhtml", "div");
    let c = CQualName::create(&q);
    assert_eq!(c.prefix.tag, 0);
    assert_eq!(c.prefix.value.len(), 0);
    assert_eq!(c.ns.data, b"http://www.w3.org/1999/xhtml");
    assert_eq!(c.local.data, b"div");
    assert!(std::ptr::eq(c.local.data.as_ptr(), q.local.as_ptr()));
}

#[test]
fn qualified_name_view_with_prefix() {
    let q = qname(Some("xlink"), "http://www.w3.org/1999/xlink", "href");
    let c = CQualName::create(&q);
    assert_eq!(c.prefix.tag, 1);
    assert_eq!(c.prefix.value.data, b"xlink");
    assert_eq!(c.local.data, b"href");
}

#[test]
fn qualified_name_default_is_empty() {
    let c = CQualName::default();
    assert_eq!(c.prefix.tag, 0);
    assert_eq!(c.ns.len(), 0);
    assert_eq!(c.local.len(), 0);
    let a = CAttribute::default();
    assert_eq!(a.value.len(), 0);
    assert_eq!(a.name.prefix.tag, 0);
}

#[test]
fn qualified_name_copy_is_equal() {
    let q = qname(Some("svg"), "http://www.w3.org/2000/svg", "rect");
    let c = q.copy();
    assert_eq!(c.prefix, q.prefix);
    assert_eq!(c.ns, q.ns);
    assert_eq!(c.local, q.local);
}

#[test]
fn attribute_view_has_name_and_value() {
    let a = attr("class", "big");
    let c = CAttribute::create(&a);
    assert_eq!(c.name.local.data, b"class");
    assert_eq!(c.value.data, b"big");
}

#[test]
fn attribute_sequence_yields_count_then_exhausts() {
    let attrs = vec![attr("id", "x"), attr("class", "y")];
    let mut it = CAttributeIterator::new(attrs.as_slice());
    let k = html5ever_attribute_iterator_count(&it);
    assert_eq!(k, 2);
    let first = html5ever_attribute_iterator_next(&mut it);
    assert_eq!(first.tag, 1);
    assert_eq!(first.value.name.local.data, b"id");
    assert_eq!(first.value.value.data, b"x");
    assert_eq!(html5ever_attribute_iterator_count(&it), 2);
    let second = html5ever_attribute_iterator_next(&mut it);
    assert_eq!(second.tag, 1);
    assert_eq!(second.value.name.local.data, b"class");
    assert_eq!(second.value.value.data, b"y");
    for _ in 0..3 {
        let end = html5ever_attribute_iterator_next(&mut it);
        assert_eq!(end.tag, 0);
        assert_eq!(it.pos, 2);
    }
    assert_eq!(html5ever_attribute_iterator_count(&it), 2);
}

#[test]
fn attribute_sequence_empty_exhausts_at_once() {
    let attrs: Vec<Attribute> = Vec::new();
    let mut it = CAttributeIterator::new(attrs.as_slice());
    assert_eq!(html5ever_attribute_iterator_count(&it), 0);
    assert_eq!(html5ever_attribute_iterator_next(&mut it).tag, 0);
    assert_eq!(html5ever_attribute_iterator_next(&mut it).tag, 0);
}

#[test]
fn node_or_text_tags() {
    let n = CNodeOrText::node(Ref { addr: 7 });
    assert_eq!(n.tag, 0);
    assert_eq!(n.node, Ref { addr: 7 });
    assert_eq!(n.text.len(), 0);
    let text = b"hello".to_vec();
    let t = CNodeOrText::text(text.as_slice());
    assert_eq!(t.tag, 1);
    assert_eq!(t.node, Ref::null());
    assert_eq!(t.text.data, b"hello");
}

#[test]
fn one_shot_missing_or_empty_input_is_no_op() {
    assert!(!one_shot_accepts(None));
    assert!(!one_shot_accepts(Some(&[])));
    assert!(one_shot_accepts(Some(b"<p>x</p>")));
}

#[test]
fn chunk_decision() {
    assert!(accept_chunk(3, true));
    assert!(!accept_chunk(3, false));
    assert!(!accept_chunk(0, true));
}

#[test]
fn session_feed_passes_valid_text() {
    let mut s = StreamSession::create();
    assert_eq!(s.state, SessionState::Created);
    let chunk = b"<p>A</p>".to_vec();
    let t = s.feed(chunk.as_slice());
    assert_eq!(t, Some("<p>A</p>"));
    assert_eq!(s.state, SessionState::Feeding);
    assert_eq!(s.finish(), SessionState::Finished);
}

#[test]
fn session_feed_drops_invalid_utf8_and_empty_chunks() {
    let mut s = StreamSession::create();
    assert_eq!(s.feed(&[0xff, 0xfe, 0x41]), None);
    assert_eq!(s.feed(&[]), None);
    assert_eq!(s.state, SessionState::Feeding);
    assert_eq!(s.feed("é".as_bytes()), Some("é"));
}

#[test]
fn session_destroy_while_feeding() {
    let mut s = StreamSession::create();
    assert_eq!(s.feed(b"<p>"), Some("<p>"));
    assert_eq!(s.destroy(), SessionState::Destroyed);
}

#[test]
fn memory_holds_counts() {
    let m = Memory { resident: 10, allocated: 4 };
    assert_eq!(m.resident, 10);
    assert_eq!(m.allocated, 4);
}
