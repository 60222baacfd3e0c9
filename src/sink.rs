use vstd::prelude::*;

use crate::attrs::CAttributeIterator;
use crate::types::{
    Attribute, AttributeView, CNodeOrText, CQualName, QualNameView, QualifiedName, Ref, Slice,
    StringSlice,
};

verus! {

/// The document-wide compatibility mode that the engine decides on.
#[derive(Clone, Copy, Debug, PartialEq, Eq, Structural)]
pub enum QuirksMode {
    Quirks,
    LimitedQuirks,
    NoQuirks,
}

/// What the engine says of an element at its creation.
#[derive(Clone, Copy, Debug, PartialEq, Eq, Structural)]
pub struct ElementFlags {
    pub template: bool,
    pub mathml_annotation_xml_integration_point: bool,
}

/// The per-element metadata kept for the engine's later queries.
pub struct ElementData {
    pub qname: QualifiedName,
    pub mathml_annotation_xml_integration_point: bool,
}

/// What an element's metadata holds.
pub ghost struct ElementDataView {
    pub qname: QualNameView,
    pub mathml_annotation_xml_integration_point: bool,
}

impl ElementData {
    pub open spec fn view(&self) -> ElementDataView {
        ElementDataView {
            qname: self.qname@,
            mathml_annotation_xml_integration_point: self.mathml_annotation_xml_integration_point,
        }
    }

    pub fn new(qname: QualifiedName, flags: ElementFlags) -> (r: ElementData)
        ensures
            r.qname == qname,
            r.mathml_annotation_xml_integration_point
                == flags.mathml_annotation_xml_integration_point,
    {
        ElementData {
            qname,
            mathml_annotation_xml_integration_point: flags.mathml_annotation_xml_integration_point,
        }
    }
}

/// A child that the engine appends: an existing node, or text borrowed from
/// the engine for the length of the call.
pub enum NodeOrText<'b> {
    AppendNode(Ref),
    AppendText(&'b [u8]),
}

#[verifier::external_type_specification]
#[verifier::external_body]
#[verifier::reject_recursive_types(T)]
pub struct ExArena<T>(typed_arena::Arena<T>);

/// Relies on typed_arena::Arena::alloc: the value is moved into the arena,
/// which never moves or drops it before the arena itself is dropped, and a
/// reference to it is returned.
#[verifier::external_body]
fn alloc_element_data<'a>(arena: &'a typed_arena::Arena<ElementData>, data: ElementData) -> (r: &'a ElementData)
    ensures
        *r == data,
{
    arena.alloc(data)
}

/// Copies a run of bytes.
fn copy_bytes(v: &Vec<u8>) -> (r: Vec<u8>)
    ensures
        r@ == v@,
{
    let mut r: Vec<u8> = Vec::new();
    let mut i: usize = 0;
    while i < v.len()
        invariant
            i <= v@.len(),
            r@ == v@.subrange(0, i as int),
        decreases v@.len() - i,
    {
        r.push(v[i]);
        i = i + 1;
        proof {
            assert(r@ =~= v@.subrange(0, i as int));
        }
    }
    proof {
        assert(r@ =~= v@);
    }
    r
}

impl QualifiedName {
    /// An owned copy of this name.
    pub fn copy(&self) -> (r: QualifiedName)
        ensures
            r@ == self@,
    {
        let prefix = match &self.prefix {
            Some(p) => Some(copy_bytes(p)),
            None => None,
        };
        QualifiedName { prefix, ns: copy_bytes(&self.ns), local: copy_bytes(&self.local) }
    }
}

/// What a child handed to the host's append holds.
pub ghost enum ChildView {
    Node(Ref),
    Text(Seq<u8>),
}

impl<'b> NodeOrText<'b> {
    pub open spec fn view(&self) -> ChildView {
        match self {
            NodeOrText::AppendNode(n) => ChildView::Node(*n),
            NodeOrText::AppendText(t) => ChildView::Text(t@),
        }
    }
}

impl<'c> CNodeOrText<'c> {
    /// What the host is handed: a node under tag 0, text otherwise.
    pub open spec fn child_view(&self) -> ChildView {
        if self.tag == 0 {
            ChildView::Node(self.node)
        } else {
            ChildView::Text(self.text@)
        }
    }
}

/// The views of a run of attributes.
pub open spec fn attr_views(attrs: Seq<Attribute>) -> Seq<AttributeView> {
    attrs.map_values(|a: Attribute| a@)
}

/// What a host operation is handed.
pub ghost enum HostEvent {
    CreateElement { data: ElementDataView, name: QualNameView, attrs: Seq<AttributeView> },
    CreateComment { text: Seq<u8> },
    CreatePi { target: Seq<u8>, data: Seq<u8> },
    Append { parent: Ref, child: ChildView },
    AppendDoctype { name: Seq<u8>, public_id: Seq<u8>, system_id: Seq<u8> },
    AddAttrsIfMissing { target: Ref, attrs: Seq<AttributeView> },
    ParseError { msg: Seq<u8> },
    Pop { node: Ref },
    GetTemplateContents { target: Ref },
    RemoveFromParent { target: Ref },
    ReparentChildren { node: Ref, new_parent: Ref },
}

/// One operation for the host to perform, with the views it is handed.
///
/// `'a` is the lifetime of the metadata arena, `'b` that of the engine's
/// values the views borrow from; the host must not keep a view past the call.
pub enum HostCall<'a, 'b> {
    /// Create an element; `data` is its metadata, to be kept as the node's
    /// association key, and `attrs` is a sequence over its attributes.
    CreateElement { data: &'a ElementData, name: CQualName<'b>, attrs: CAttributeIterator<'b> },
    CreateComment { text: StringSlice<'b> },
    CreatePi { target: StringSlice<'b>, data: StringSlice<'b> },
    Append { parent: Ref, child: CNodeOrText<'b> },
    AppendDoctype { name: StringSlice<'b>, public_id: StringSlice<'b>, system_id: StringSlice<'b> },
    /// Merge `attrs` into `target` without overwriting attributes it has.
    AddAttrsIfMissing { target: Ref, attrs: CAttributeIterator<'b> },
    ParseError { msg: StringSlice<'b> },
    Pop { node: Ref },
    GetTemplateContents { target: Ref },
    RemoveFromParent { target: Ref },
    ReparentChildren { node: Ref, new_parent: Ref },
}

impl<'a, 'b> HostCall<'a, 'b> {
    /// Names are well formed, attribute sequences stand at their start, and a
    /// child is tagged as node (with no text) or as text (with no node).
    pub open spec fn wf(&self) -> bool {
        match self {
            HostCall::CreateElement { data, name, attrs } => name.wf() && name@ == data.qname@
                && attrs.pos == 0,
            HostCall::AddAttrsIfMissing { target, attrs } => attrs.pos == 0,
            HostCall::Append { parent, child } => {
                &&& (child.tag == 0 || child.tag == 1)
                &&& (child.tag == 0 ==> child.text@.len() == 0)
                &&& (child.tag == 1 ==> child.node == Ref::null_spec())
            },
            _ => true,
        }
    }

    pub open spec fn view(&self) -> HostEvent {
        match self {
            HostCall::CreateElement { data, name, attrs } => HostEvent::CreateElement {
                data: data@,
                name: name@,
                attrs: attr_views(attrs.vec@),
            },
            HostCall::CreateComment { text } => HostEvent::CreateComment { text: text@ },
            HostCall::CreatePi { target, data } => HostEvent::CreatePi { target: target@, data: data@ },
            HostCall::Append { parent, child } => HostEvent::Append {
                parent: *parent,
                child: child.child_view(),
            },
            HostCall::AppendDoctype { name, public_id, system_id } => HostEvent::AppendDoctype {
                name: name@,
                public_id: public_id@,
                system_id: system_id@,
            },
            HostCall::AddAttrsIfMissing { target, attrs } => HostEvent::AddAttrsIfMissing {
                target: *target,
                attrs: attr_views(attrs.vec@),
            },
            HostCall::ParseError { msg } => HostEvent::ParseError { msg: msg@ },
            HostCall::Pop { node } => HostEvent::Pop { node: *node },
            HostCall::GetTemplateContents { target } => HostEvent::GetTemplateContents {
                target: *target,
            },
            HostCall::RemoveFromParent { target } => HostEvent::RemoveFromParent { target: *target },
            HostCall::ReparentChildren { node, new_parent } => HostEvent::ReparentChildren {
                node: *node,
                new_parent: *new_parent,
            },
        }
    }
}

/// The tree-construction adapter: answers the engine's queries and turns each
/// of its tree events into the operation the host is to perform.
///
/// The caller performs each returned `HostCall` on the host, at once and
/// once, and hands the handle it yields back to the engine.
pub struct Sink<'a> {
    pub document: Ref,
    pub arena: &'a typed_arena::Arena<ElementData>,
    pub quirks_mode: QuirksMode,
}

impl<'a> Sink<'a> {
    /// An adapter for a document rooted at `document`, in no-quirks mode.
    pub fn new(document: Ref, arena: &'a typed_arena::Arena<ElementData>) -> (r: Sink<'a>)
        ensures
            r.document == document,
            r.arena == arena,
            r.quirks_mode == QuirksMode::NoQuirks,
    {
        Sink { document, arena, quirks_mode: QuirksMode::NoQuirks }
    }

    /// The engine has no further events.
    pub fn finish(self) {
    }

    /// The report of a parse error; parsing goes on.
    pub fn parse_error<'b>(&self, msg: &'b [u8]) -> (r: HostCall<'a, 'b>)
        ensures
            r.wf(),
            r@ == (HostEvent::ParseError { msg: msg@ }),
    {
        HostCall::ParseError { msg: Slice::new(msg) }
    }

    pub fn get_document(&self) -> (r: Ref)
        ensures
            r == self.document,
    {
        self.document
    }

    /// Records the engine's quirks-mode decision.
    pub fn set_quirks_mode(&mut self, mode: QuirksMode)
        ensures
            final(self).quirks_mode == mode,
            final(self).document == old(self).document,
            final(self).arena == old(self).arena,
    {
        self.quirks_mode = mode;
    }

    /// Handles are the same node exactly when they are equal.
    pub fn same_node(&self, x: Ref, y: Ref) -> (r: bool)
        ensures
            r == same_node_spec(x, y),
    {
        x == y
    }

    /// The qualified name of an element, given the metadata that the host
    /// keeps for it; borrowed from the arena, not copied.
    pub fn elem_name(&self, data: &'a ElementData) -> (r: &'a QualifiedName)
        ensures
            r == &data.qname,
    {
        &data.qname
    }

    /// The integration-point flag of an element, given the metadata that the
    /// host keeps for it.
    pub fn is_mathml_annotation_xml_integration_point(&self, data: &'a ElementData) -> (r: bool)
        ensures
            r == data.mathml_annotation_xml_integration_point,
    {
        data.mathml_annotation_xml_integration_point
    }

    /// The lookup of a template's content fragment.
    pub fn get_template_contents<'b>(&self, target: Ref) -> (r: HostCall<'a, 'b>)
        ensures
            r.wf(),
            r@ == (HostEvent::GetTemplateContents { target }),
    {
        HostCall::GetTemplateContents { target }
    }

    pub fn pop<'b>(&self, node: Ref) -> (r: HostCall<'a, 'b>)
        ensures
            r.wf(),
            r@ == (HostEvent::Pop { node }),
    {
        HostCall::Pop { node }
    }

    /// Allocates the element's metadata in the arena and returns the creation
    /// of the element, keyed by that metadata, with a view of `name` and a
    /// sequence over `attrs` at its start.
    pub fn create_element<'b>(
        &self,
        name: &'b QualifiedName,
        attrs: &'b [Attribute],
        flags: ElementFlags,
    ) -> (r: HostCall<'a, 'b>)
        ensures
            r.wf(),
            r@ == (HostEvent::CreateElement {
                data: ElementDataView {
                    qname: name@,
                    mathml_annotation_xml_integration_point: flags.mathml_annotation_xml_integration_point,
                },
                name: name@,
                attrs: attr_views(attrs@),
            }),
    {
        let data = alloc_element_data(self.arena, ElementData::new(name.copy(), flags));
        HostCall::CreateElement {
            data,
            name: CQualName::create(name),
            attrs: CAttributeIterator::new(attrs),
        }
    }

    pub fn create_comment<'b>(&self, text: &'b [u8]) -> (r: HostCall<'a, 'b>)
        ensures
            r.wf(),
            r@ == (HostEvent::CreateComment { text: text@ }),
    {
        HostCall::CreateComment { text: Slice::new(text) }
    }

    pub fn create_pi<'b>(&self, target: &'b [u8], data: &'b [u8]) -> (r: HostCall<'a, 'b>)
        ensures
            r.wf(),
            r@ == (HostEvent::CreatePi { target: target@, data: data@ }),
    {
        HostCall::CreatePi { target: Slice::new(target), data: Slice::new(data) }
    }

    /// Appending `child` to `parent`: a node under tag 0, and text, viewed in
    /// place for the call, under tag 1.
    pub fn append<'b>(&self, parent: Ref, child: NodeOrText<'b>) -> (r: HostCall<'a, 'b>)
        ensures
            r.wf(),
            r@ == (HostEvent::Append { parent, child: child@ }),
    {
        match child {
            NodeOrText::AppendText(t) => HostCall::Append { parent, child: CNodeOrText::text(t) },
            NodeOrText::AppendNode(node) => HostCall::Append { parent, child: CNodeOrText::node(node) },
        }
    }

    pub fn append_doctype_to_document<'b>(
        &self,
        name: &'b [u8],
        public_id: &'b [u8],
        system_id: &'b [u8],
    ) -> (r: HostCall<'a, 'b>)
        ensures
            r.wf(),
            r@ == (HostEvent::AppendDoctype { name: name@, public_id: public_id@, system_id: system_id@ }),
    {
        HostCall::AppendDoctype {
            name: Slice::new(name),
            public_id: Slice::new(public_id),
            system_id: Slice::new(system_id),
        }
    }

    /// Merging `attrs`, as a sequence at its start, into `target`.
    pub fn add_attrs_if_missing<'b>(&self, target: Ref, attrs: &'b [Attribute]) -> (r: HostCall<'a, 'b>)
        ensures
            r.wf(),
            r@ == (HostEvent::AddAttrsIfMissing { target, attrs: attr_views(attrs@) }),
    {
        HostCall::AddAttrsIfMissing { target, attrs: CAttributeIterator::new(attrs) }
    }

    pub fn remove_from_parent<'b>(&self, target: Ref) -> (r: HostCall<'a, 'b>)
        ensures
            r.wf(),
            r@ == (HostEvent::RemoveFromParent { target }),
    {
        HostCall::RemoveFromParent { target }
    }

    pub fn reparent_children<'b>(&self, node: Ref, new_parent: Ref) -> (r: HostCall<'a, 'b>)
        ensures
            r.wf(),
            r@ == (HostEvent::ReparentChildren { node, new_parent }),
    {
        HostCall::ReparentChildren { node, new_parent }
    }
}

/// Host identity: two handles denote the same node exactly when they are equal.
pub open spec fn same_node_spec(x: Ref, y: Ref) -> bool {
    x == y
}

/// Node identity is an equivalence: every handle is the same node as itself,
/// and the relation is symmetric and transitive.
pub proof fn lemma_same_node_equivalence(h: Ref, x: Ref, y: Ref, z: Ref)
    ensures
        same_node_spec(h, h),
        same_node_spec(x, y) == same_node_spec(y, x),
        same_node_spec(x, y) && same_node_spec(y, z) ==> same_node_spec(x, z),
{
}

} // verus!
