//! An ordered sequence of elements with a memoized full render.

use vstd::prelude::*;
use vstd::string::StringExecFns;
use crate::element::{Element, elem_render};

verus! {

/// The text that a sequence of elements renders to: the concatenation of
/// each element's output, in insertion order.
pub open spec fn doc_render(elems: Seq<Element>) -> Seq<char>
    decreases elems.len(),
{
    if elems.len() == 0 {
        Seq::empty()
    } else {
        doc_render(elems.drop_last()) + elem_render(elems.last())
    }
}

/// A document with no elements renders to the empty string.
pub proof fn lemma_doc_render_empty()
    ensures
        doc_render(Seq::<Element>::empty()) == Seq::<char>::empty(),
{
}

/// The render of a sequence of elements is the ordered concatenation of
/// the renders of its parts: splitting the sequence anywhere splits the
/// rendered text at the matching point.
pub proof fn lemma_doc_render_concat(a: Seq<Element>, b: Seq<Element>)
    ensures
        doc_render(a + b) == doc_render(a) + doc_render(b),
    decreases b.len(),
{
    if b.len() == 0 {
        assert(a + b =~= a);
        assert(doc_render(a) + doc_render(b) =~= doc_render(a));
    } else {
        lemma_doc_render_concat(a, b.drop_last());
        assert((a + b).drop_last() =~= a + b.drop_last());
        assert((a + b).last() == b.last());
        assert(doc_render(a) + doc_render(b.drop_last()) + elem_render(b.last())
            =~= doc_render(a) + doc_render(b));
    }
}

/// Rendering a prefix one element longer appends exactly that element's
/// output: the full render is the ordered concatenation of the individual
/// elements' outputs.
pub proof fn lemma_doc_render_take_step(elems: Seq<Element>, i: int)
    requires
        0 <= i < elems.len(),
    ensures
        doc_render(elems.take(i + 1)) == doc_render(elems.take(i)) + elem_render(elems[i]),
{
    assert(elems.take(i + 1).drop_last() =~= elems.take(i));
    assert(elems.take(i + 1).last() == elems[i]);
}

/// Appending an element extends the rendered text by exactly that
/// element's output, so a render after an append always shows the new
/// element at the end.
pub proof fn lemma_doc_render_push(elems: Seq<Element>, e: Element)
    ensures
        doc_render(elems.push(e)) == doc_render(elems) + elem_render(e),
{
    assert(elems.push(e).drop_last() =~= elems);
    assert(elems.push(e).last() == e);
}

/// An ordered, mutable collection of elements (insertion order is render
/// order) together with an optional memoized render of the whole sequence.
pub struct Document {
    elements: Vec<Element>,
    cached_render: Option<String>,
}

impl Document {
    /// The element sequence, in insertion order.
    pub closed spec fn elements_spec(&self) -> Seq<Element> {
        self.elements@
    }

    /// Whether a memoized render is currently held.
    pub closed spec fn has_cache(&self) -> bool {
        self.cached_render is Some
    }

    /// The memoized render, when present, is exactly the render of the
    /// current element sequence; every mutation clears it before the next
    /// read.
    pub closed spec fn inv(&self) -> bool {
        match self.cached_render {
            Some(c) => c@ == doc_render(self.elements@),
            None => true,
        }
    }

    pub fn new() -> (r: Self)
        ensures
            r.elements_spec() == Seq::<Element>::empty(),
            !r.has_cache(),
            r.inv(),
    {
        Document { elements: Vec::new(), cached_render: None }
    }

    /// Appends an element to the end of the sequence and unconditionally
    /// discards the memoized render. Always succeeds.
    pub fn add_element(&mut self, elem: Element)
        ensures
            final(self).inv(),
            final(self).elements_spec() == old(self).elements_spec().push(elem),
            !final(self).has_cache(),
    {
        self.elements.push(elem);
        self.cached_render = None;
    }

    /// Concatenates every element's output in order, reading nothing from
    /// and writing nothing to the memoized render.
    pub fn render_uncached(&self) -> (r: String)
        ensures
            r@ == doc_render(self.elements_spec()),
    {
        let ghost elems = self.elements@;
        let mut result = String::new();
        let mut i: usize = 0;
        while i < self.elements.len()
            invariant
                self.elements@ == elems,
                i <= elems.len(),
                result@ == doc_render(elems.take(i as int)),
            decreases elems.len() - i,
        {
            let piece = self.elements[i].render();
            result.append(piece.as_str());
            proof {
                lemma_doc_render_take_step(elems, i as int);
            }
            i = i + 1;
        }
        proof {
            assert(elems.take(elems.len() as int) =~= elems);
        }
        result
    }

    /// Renders the document: returns a copy of the memoized text when one
    /// is held (no recomputation), otherwise concatenates every element's
    /// output in order and memoizes the result. Never fails, and never
    /// changes the element sequence.
    pub fn render(&mut self) -> (r: String)
        requires
            old(self).inv(),
        ensures
            final(self).inv(),
            final(self).elements_spec() == old(self).elements_spec(),
            final(self).has_cache(),
            r@ == doc_render(old(self).elements_spec()),
    {
        match &self.cached_render {
            Some(cached) => {
                return cached.clone();
            },
            None => {},
        }
        let result = self.render_uncached();
        self.cached_render = Some(result.clone());
        result
    }
}

} // verus!
