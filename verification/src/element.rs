//! The units of document content and what each one renders to.

use vstd::prelude::*;
use vstd::string::StringExecFns;

verus! {

/// A block of literal text, rendered verbatim.
pub struct TextElement {
    pub text: String,
}

/// A reference to an image, rendered as a bracketed placeholder naming its
/// path.
pub struct ImageElement {
    pub path: String,
}

/// A line break, rendered as a single newline character.
pub struct NewLineElement;

/// A horizontal tab, rendered as a single tab character.
pub struct TabSpaceElement;

/// One unit of document content.
pub enum Element {
    Text(TextElement),
    Image(ImageElement),
    NewLine(NewLineElement),
    Tab(TabSpaceElement),
}

/// The text that a single element renders to.
pub open spec fn elem_render(e: Element) -> Seq<char> {
    match e {
        Element::Text(t) => t.text@,
        Element::Image(i) => "[Image: "@ + i.path@ + "]"@,
        Element::NewLine(_) => "\n"@,
        Element::Tab(_) => "\t"@,
    }
}

impl TextElement {
    pub fn new(text: String) -> (r: Self)
        ensures
            r == (TextElement { text }),
    {
        TextElement { text }
    }

    pub fn render(&self) -> (r: String)
        ensures
            r@ == self.text@,
    {
        self.text.clone()
    }
}

impl ImageElement {
    pub fn new(path: String) -> (r: Self)
        ensures
            r == (ImageElement { path }),
    {
        ImageElement { path }
    }

    pub fn render(&self) -> (r: String)
        ensures
            r@ == "[Image: "@ + self.path@ + "]"@,
    {
        let mut r = "[Image: ".to_owned();
        r.append(self.path.as_str());
        r.append("]");
        r
    }
}

impl NewLineElement {
    pub fn new() -> (r: Self)
        ensures
            r == NewLineElement,
    {
        NewLineElement
    }

    pub fn render(&self) -> (r: String)
        ensures
            r@ == "\n"@,
    {
        "\n".to_owned()
    }
}

impl TabSpaceElement {
    pub fn new() -> (r: Self)
        ensures
            r == TabSpaceElement,
    {
        TabSpaceElement
    }

    pub fn render(&self) -> (r: String)
        ensures
            r@ == "\t"@,
    {
        "\t".to_owned()
    }
}

impl Element {
    /// Renders this element: pure, deterministic, and total in the
    /// variant's data.
    pub fn render(&self) -> (r: String)
        ensures
            r@ == elem_render(*self),
    {
        match self {
            Element::Text(t) => t.render(),
            Element::Image(i) => i.render(),
            Element::NewLine(n) => n.render(),
            Element::Tab(t) => t.render(),
        }
    }
}

} // verus!
