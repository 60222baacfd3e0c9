use vstd::prelude::*;

verus! {

/// An opaque handle to a node owned by the host document model.
///
/// Two handles denote the same node exactly when their addresses are equal.
#[derive(Clone, Copy, Debug, PartialEq, Eq, Structural)]
pub struct Ref {
    pub addr: usize,
}

impl Ref {
    pub open spec fn null_spec() -> Ref {
        Ref { addr: 0 }
    }

    /// The handle that denotes no node.
    pub fn null() -> (r: Ref)
        ensures
            r == Ref::null_spec(),
    {
        Ref { addr: 0 }
    }
}

/// A value that may be absent, laid out as a tag byte and a payload.
///
/// The tag is 0 for an absent value and 1 for a present one; an absent value
/// carries the payload type's default.
pub struct CNullable<T> {
    pub tag: u8,
    pub value: T,
}

impl<T: Default> CNullable<T> {
    pub fn none() -> (r: CNullable<T>)
        ensures
            r.tag == 0,
            call_ensures(T::default, (), r.value),
    {
        CNullable { tag: 0, value: T::default() }
    }

    pub fn some(v: T) -> (r: CNullable<T>)
        ensures
            r.tag == 1,
            r.value == v,
    {
        CNullable { tag: 1, value: v }
    }
}

impl<T> CNullable<T> {
    pub open spec fn is_some(&self) -> bool {
        self.tag == 1
    }
}

/// A borrowed view of a run of values, valid for as long as its owner lives.
pub struct Slice<'a, T> {
    pub data: &'a [T],
}

impl<'a, T> Slice<'a, T> {
    pub open spec fn view(&self) -> Seq<T> {
        self.data@
    }

    pub fn new(data: &'a [T]) -> (r: Slice<'a, T>)
        ensures
            r@ == data@,
    {
        Slice { data }
    }

    pub fn len(&self) -> (r: usize)
        ensures
            r == self@.len(),
    {
        self.data.len()
    }
}

impl<'a, T> Default for Slice<'a, T> {
    fn default() -> (r: Slice<'a, T>)
        ensures
            r@.len() == 0,
    {
        let empty: &'a [T] = &[];
        Slice { data: empty }
    }
}

/// A borrowed view of UTF-8 text.
pub type StringSlice<'a> = Slice<'a, u8>;

/// What a qualified name holds: an optional prefix, a namespace and a local
/// name, each as UTF-8 bytes.
pub ghost struct QualNameView {
    pub prefix: Option<Seq<u8>>,
    pub ns: Seq<u8>,
    pub local: Seq<u8>,
}

/// A namespaced name, owning its text.
pub struct QualifiedName {
    pub prefix: Option<Vec<u8>>,
    pub ns: Vec<u8>,
    pub local: Vec<u8>,
}

impl QualifiedName {
    pub open spec fn view(&self) -> QualNameView {
        QualNameView {
            prefix: match self.prefix {
                Some(p) => Some(p@),
                None => None,
            },
            ns: self.ns@,
            local: self.local@,
        }
    }
}

/// A name/value pair given to an element, owning its text.
pub struct Attribute {
    pub name: QualifiedName,
    pub value: Vec<u8>,
}

/// What an attribute holds: its qualified name and its value bytes.
pub ghost struct AttributeView {
    pub name: QualNameView,
    pub value: Seq<u8>,
}

impl Attribute {
    pub open spec fn view(&self) -> AttributeView {
        AttributeView { name: self.name@, value: self.value@ }
    }
}

/// A qualified name as borrowed views, for handing across the host boundary.
pub struct CQualName<'a> {
    pub prefix: CNullable<StringSlice<'a>>,
    pub ns: StringSlice<'a>,
    pub local: StringSlice<'a>,
}

impl<'a> CQualName<'a> {
    /// The prefix tag says whether a prefix is present, and an absent one
    /// carries an empty view.
    pub open spec fn wf(&self) -> bool {
        &&& (self.prefix.tag == 0 || self.prefix.tag == 1)
        &&& (self.prefix.tag == 0 ==> self.prefix.value@.len() == 0)
    }

    pub open spec fn view(&self) -> QualNameView {
        QualNameView {
            prefix: if self.prefix.tag == 1 {
                Some(self.prefix.value@)
            } else {
                None
            },
            ns: self.ns@,
            local: self.local@,
        }
    }

    /// Views `q` without copying its text.
    pub fn create(q: &'a QualifiedName) -> (r: CQualName<'a>)
        ensures
            r.wf(),
            r@ == q@,
    {
        let ns = Slice::new(q.ns.as_slice());
        let local = Slice::new(q.local.as_slice());
        let prefix = match &q.prefix {
            None => CNullable::<StringSlice<'a>>::none(),
            Some(p) => CNullable::<StringSlice<'a>>::some(Slice::new(p.as_slice())),
        };
        let r = CQualName { prefix, ns, local };
        proof {
            if q.prefix is None {
                assert(r@.prefix == q@.prefix);
            }
        }
        r
    }
}

impl<'a> Default for CQualName<'a> {
    fn default() -> (r: CQualName<'a>)
        ensures
            r.wf(),
            r@.prefix is None,
            r@.ns.len() == 0,
            r@.local.len() == 0,
    {
        CQualName {
            prefix: CNullable::<StringSlice<'a>>::none(),
            ns: StringSlice::default(),
            local: StringSlice::default(),
        }
    }
}

/// An attribute as borrowed views.
pub struct CAttribute<'a> {
    pub name: CQualName<'a>,
    pub value: StringSlice<'a>,
}

impl<'a> CAttribute<'a> {
    pub open spec fn wf(&self) -> bool {
        self.name.wf()
    }

    pub open spec fn view(&self) -> AttributeView {
        AttributeView { name: self.name@, value: self.value@ }
    }

    /// Views `a` without copying its text.
    pub fn create(a: &'a Attribute) -> (r: CAttribute<'a>)
        ensures
            r.wf(),
            r@ == a@,
    {
        CAttribute { name: CQualName::create(&a.name), value: Slice::new(a.value.as_slice()) }
    }
}

impl<'a> Default for CAttribute<'a> {
    fn default() -> (r: CAttribute<'a>)
        ensures
            r.wf(),
            r@.name.prefix is None,
            r@.name.ns.len() == 0,
            r@.name.local.len() == 0,
            r@.value.len() == 0,
    {
        CAttribute { name: CQualName::default(), value: StringSlice::default() }
    }
}

/// A child handed to the host's append: an existing node (tag 0) or a run of
/// text (tag 1).
pub struct CNodeOrText<'a> {
    pub tag: u8,
    pub node: Ref,
    pub text: StringSlice<'a>,
}

impl<'a> CNodeOrText<'a> {
    pub fn node(node: Ref) -> (r: CNodeOrText<'a>)
        ensures
            r.tag == 0,
            r.node == node,
            r.text@.len() == 0,
    {
        CNodeOrText { tag: 0, node, text: StringSlice::default() }
    }

    pub fn text(text: &'a [u8]) -> (r: CNodeOrText<'a>)
        ensures
            r.tag == 1,
            r.node == Ref::null_spec(),
            r.text@ == text@,
    {
        CNodeOrText { tag: 1, node: Ref::null(), text: Slice::new(text) }
    }
}

} // verus!
