use vstd::prelude::*;

use crate::types::{Attribute, CAttribute, CNullable};

verus! {

/// A single-pass sequence over the attributes of one element-creation event.
///
/// `pos` counts the attributes already handed out.
pub struct CAttributeIterator<'a> {
    pub vec: &'a [Attribute],
    pub pos: usize,
}

/// Whether a sequence of `len` attributes at position `pos` still has one to give.
pub open spec fn yields(len: nat, pos: nat) -> bool {
    pos < len
}

/// The position after one pull on a sequence of `len` attributes.
pub open spec fn next_pos(len: nat, pos: nat) -> nat {
    if pos < len {
        (pos + 1) as nat
    } else {
        pos
    }
}

/// The position after `j` pulls from position `start`.
pub open spec fn pos_after(len: nat, start: nat, j: nat) -> nat
    decreases j,
{
    if j == 0 {
        start
    } else {
        next_pos(len, pos_after(len, start, (j - 1) as nat))
    }
}

impl<'a> CAttributeIterator<'a> {
    /// A sequence over `vec`, positioned before its first attribute.
    pub fn new(vec: &'a [Attribute]) -> (r: CAttributeIterator<'a>)
        ensures
            r.vec@ == vec@,
            r.pos == 0,
    {
        CAttributeIterator { vec, pos: 0 }
    }
}

/// Hands out the attribute at the current position and advances past it, or
/// signals exhaustion, leaving the position alone, once none is left.
pub fn html5ever_attribute_iterator_next<'a>(iter: &mut CAttributeIterator<'a>) -> (r: CNullable<
    CAttribute<'a>,
>)
    ensures
        final(iter).vec == old(iter).vec,
        final(iter).pos == next_pos(old(iter).vec@.len(), old(iter).pos as nat),
        r.is_some() == yields(old(iter).vec@.len(), old(iter).pos as nat),
        !r.is_some() ==> {
            &&& r.tag == 0
            &&& r.value.wf()
            &&& r.value@.name.prefix is None
            &&& r.value@.name.ns.len() == 0
            &&& r.value@.name.local.len() == 0
            &&& r.value@.value.len() == 0
        },
        r.is_some() ==> r.value.wf() && r.value@ == old(iter).vec@[old(iter).pos as int]@,
{
    let pos = iter.pos;
    let vec: &'a [Attribute] = iter.vec;
    if pos >= vec.len() {
        return CNullable::<CAttribute<'a>>::none();
    }
    let attr: &'a Attribute = &vec[pos];
    iter.pos = pos + 1;
    CNullable::<CAttribute<'a>>::some(CAttribute::create(attr))
}

/// The number of attributes in the sequence; the position is left alone.
pub fn html5ever_attribute_iterator_count(iter: &CAttributeIterator) -> (r: usize)
    ensures
        r == iter.vec@.len(),
{
    iter.vec.len()
}

/// A sequence whose count is `k`, pulled `j` times from its start, has handed
/// out an attribute on each of the first `k` pulls and signals exhaustion on
/// every pull after them.
pub proof fn lemma_attribute_sequence_exhaustion(k: nat, j: nat)
    ensures
        yields(k, pos_after(k, 0, j)) == (j < k),
        pos_after(k, 0, j) == if j < k {
            j
        } else {
            k
        },
    decreases j,
{
    if j > 0 {
        lemma_attribute_sequence_exhaustion(k, (j - 1) as nat);
    }
}

} // verus!
