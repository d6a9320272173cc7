//! The editor: a façade binding one document to one persistence sink.

use vstd::prelude::*;
use crate::document::{Document, doc_render};
use crate::element::{Element, TextElement, ImageElement, NewLineElement, TabSpaceElement};
use crate::storage::{Storage, SaveAction};

verus! {

/// Exclusive owner of one document and one persistence sink, offering
/// append conveniences, rendering, and saving.
pub struct DocumentEditor {
    document: Document,
    storage: Storage,
}

impl DocumentEditor {
    /// The element sequence of the owned document, in insertion order.
    pub closed spec fn elements_spec(&self) -> Seq<Element> {
        self.document.elements_spec()
    }

    /// The sink this editor saves to.
    pub closed spec fn storage_spec(&self) -> Storage {
        self.storage
    }

    /// The owned document's memoized render, when present, matches its
    /// element sequence.
    pub closed spec fn inv(&self) -> bool {
        self.document.inv()
    }

    pub fn new(document: Document, storage: Storage) -> (r: Self)
        ensures
            r.elements_spec() == document.elements_spec(),
            r.storage_spec() == storage,
            document.inv() ==> r.inv(),
    {
        DocumentEditor { document, storage }
    }

    /// Appends a text element holding `text` verbatim.
    pub fn add_text(&mut self, text: String)
        ensures
            final(self).inv(),
            final(self).storage_spec() == old(self).storage_spec(),
            final(self).elements_spec() == old(self).elements_spec().push(
                Element::Text((TextElement { text })),
            ),
    {
        self.document.add_element(Element::Text(TextElement::new(text)));
    }

    /// Appends an image element referring to `path`.
    pub fn add_image(&mut self, path: String)
        ensures
            final(self).inv(),
            final(self).storage_spec() == old(self).storage_spec(),
            final(self).elements_spec() == old(self).elements_spec().push(
                Element::Image((ImageElement { path })),
            ),
    {
        self.document.add_element(Element::Image(ImageElement::new(path)));
    }

    /// Appends a line break.
    pub fn add_newline(&mut self)
        ensures
            final(self).inv(),
            final(self).storage_spec() == old(self).storage_spec(),
            final(self).elements_spec() == old(self).elements_spec().push(
                Element::NewLine(NewLineElement),
            ),
    {
        self.document.add_element(Element::NewLine(NewLineElement::new()));
    }

    /// Appends a horizontal tab.
    pub fn add_tab(&mut self)
        ensures
            final(self).inv(),
            final(self).storage_spec() == old(self).storage_spec(),
            final(self).elements_spec() == old(self).elements_spec().push(
                Element::Tab(TabSpaceElement),
            ),
    {
        self.document.add_element(Element::Tab(TabSpaceElement::new()));
    }

    /// Renders the owned document, through its memoized render.
    pub fn render_document(&mut self) -> (r: String)
        requires
            old(self).inv(),
        ensures
            final(self).inv(),
            final(self).elements_spec() == old(self).elements_spec(),
            final(self).storage_spec() == old(self).storage_spec(),
            r@ == doc_render(old(self).elements_spec()),
    {
        self.document.render()
    }

    /// Recomputes the full render directly from the element sequence,
    /// bypassing the memoized render, and forwards it to the sink: a
    /// database sink completes at once, while a file sink hands the caller
    /// the exact text and destination to write.
    pub fn save_document(&self) -> (a: SaveAction)
        ensures
            (match self.storage_spec() {
                Storage::File(f) => a matches SaveAction::WriteFile { filename, data }
                    && filename@ == f.filename@
                    && data@ == doc_render(self.elements_spec()),
                Storage::Db(_) => a == SaveAction::Completed,
            }),
    {
        let data = self.document.render_uncached();
        match &self.storage {
            Storage::File(f) => SaveAction::WriteFile { filename: f.filename.clone(), data },
            Storage::Db(_) => SaveAction::Completed,
        }
    }
}

} // verus!
