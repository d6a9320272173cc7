use document_editor::document::Document;
use document_editor::editor::DocumentEditor;
use document_editor::element::{
    Element, ImageElement, NewLineElement, TabSpaceElement, TextElement,
};
use document_editor::storage::{DbStorage, FileStorage, SaveAction, Storage};

#[test]
fn text_renders_verbatim() {
    let e = TextElement::new(String::from("Hello, world!"));
    assert_eq!(e.render(), "Hello, world!");
}

#[test]
fn empty_text_renders_empty() {
    let e = TextElement::new(String::new());
    assert_eq!(e.render(), "");
}

#[test]
fn image_renders_bracketed_path() {
    let e = ImageElement::new(String::from("picture.jpg"));
    assert_eq!(e.render(), "[Image: picture.jpg]");
}

#[test]
fn newline_renders_line_break() {
    let e = NewLineElement::new();
    assert_eq!(e.render(), "\n");
}

#[test]
fn tab_renders_tab_character() {
    let e = TabSpaceElement::new();
    assert_eq!(e.render(), "\t");
}

#[test]
fn empty_document_renders_empty_string() {
    let mut d = Document::new();
    assert_eq!(d.render(), "");
}

#[test]
fn render_concatenates_element_outputs_in_order() {
    let parts = vec![
        Element::Text(TextElement::new(String::from("a"))),
        Element::Tab(TabSpaceElement::new()),
        Element::Text(TextElement::new(String::from("b"))),
        Element::NewLine(NewLineElement::new()),
        Element::Image(ImageElement::new(String::from("p.png"))),
    ];
    let mut expected = String::new();
    for e in &parts {
        expected.push_str(&e.render());
    }
    let mut d = Document::new();
    for e in parts {
        d.add_element(e);
    }
    assert_eq!(d.render(), expected);
    assert_eq!(expected, "a\tb\n[Image: p.png]");
}

#[test]
fn render_twice_without_append_is_identical() {
    let mut d = Document::new();
    d.add_element(Element::Text(TextElement::new(String::from("once"))));
    d.add_element(Element::NewLine(NewLineElement::new()));
    let first = d.render();
    let second = d.render();
    assert_eq!(first, second);
    assert_eq!(second, "once\n");
}

#[test]
fn append_after_render_shows_new_element() {
    let mut d = Document::new();
    d.add_element(Element::Text(TextElement::new(String::from("a"))));
    assert_eq!(d.render(), "a");
    d.add_element(Element::Text(TextElement::new(String::from("b"))));
    assert_eq!(d.render(), "ab");
    d.add_element(Element::Tab(TabSpaceElement::new()));
    assert_eq!(d.render(), "ab\t");
}

#[test]
fn editor_scenario_renders_expected_text() {
    let d = Document::new();
    let storage = Storage::File(FileStorage::new(String::from("document.txt")));
    let mut editor = DocumentEditor::new(d, storage);

    editor.add_text(String::from("Hello, world!"));
    editor.add_newline();
    editor.add_text(String::from("This is a real-world document editor example."));
    editor.add_newline();
    editor.add_tab();
    editor.add_text(String::from("Indented text after a tab space."));
    editor.add_newline();
    editor.add_image(String::from("picture.jpg"));

    let output = editor.render_document();
    assert_eq!(
        output,
        "Hello, world!\nThis is a real-world document editor example.\n\tIndented text after a tab space.\n[Image: picture.jpg]"
    );
}

#[test]
fn file_save_hands_out_render_of_same_elements() {
    let d = Document::new();
    let storage = Storage::File(FileStorage::new(String::from("out.txt")));
    let mut editor = DocumentEditor::new(d, storage);
    editor.add_text(String::from("line one"));
    editor.add_newline();
    editor.add_text(String::from("line two"));

    let rendered = editor.render_document();
    match editor.save_document() {
        SaveAction::WriteFile { filename, data } => {
            assert_eq!(filename, "out.txt");
            assert_eq!(data, rendered);
            assert_eq!(data, "line one\nline two");
        }
        SaveAction::Completed => panic!("a file-backed save must request a write"),
    }
}

#[test]
fn db_save_completes_without_write() {
    let d = Document::new();
    let mut editor = DocumentEditor::new(d, Storage::Db(DbStorage::new()));
    editor.add_text(String::from("anything"));
    match editor.save_document() {
        SaveAction::WriteFile { .. } => panic!("a database save requests no file write"),
        SaveAction::Completed => {}
    }
}

#[test]
fn save_on_empty_document_hands_out_empty_text() {
    let d = Document::new();
    let editor = DocumentEditor::new(d, Storage::File(FileStorage::new(String::from("e.txt"))));
    match editor.save_document() {
        SaveAction::WriteFile { filename, data } => {
            assert_eq!(filename, "e.txt");
            assert_eq!(data, "");
        }
        SaveAction::Completed => panic!("a file-backed save must request a write"),
    }
}

#[test]
fn render_is_correct_around_a_save_to_an_unwritable_path() {
    let d = Document::new();
    let storage = Storage::File(FileStorage::new(String::from(
        "no_such_directory/document.txt",
    )));
    let mut editor = DocumentEditor::new(d, storage);
    editor.add_text(String::from("kept"));

    let before = editor.render_document();
    let action = editor.save_document();
    let after = editor.render_document();

    assert_eq!(before, "kept");
    assert_eq!(after, "kept");
    match action {
        SaveAction::WriteFile { filename, data } => {
            assert_eq!(filename, "no_such_directory/document.txt");
            assert_eq!(data, "kept");
        }
        SaveAction::Completed => panic!("a file-backed save must request a write"),
    }
}
