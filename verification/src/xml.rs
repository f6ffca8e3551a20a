//! The XML document tree, as far as the listing codec reads it.
//!
//! The tree itself is `xmltree::Element`. Verus cannot look inside one, so this
//! module names what the codec reads of an element (its tag name, its child
//! elements, its text) and states over those names what each `xmltree` call
//! does. Everything marked `external_body` here is believed, not proved.

use vstd::prelude::*;
use xmltree::Element;
use xmltree::ParseError as XmlSyntaxError;

verus! {

/// `xmltree::Element`, carried as an opaque value.
#[verifier::external_type_specification]
#[verifier::external_body]
pub struct ExElement(xmltree::Element);

/// `xmltree::ParseError`, carried as an opaque value.
#[verifier::external_type_specification]
#[verifier::external_body]
pub struct ExXmlSyntaxError(XmlSyntaxError);

/// The tag name of an element (its `name` field, without prefix or namespace).
pub uninterp spec fn element_name(e: Element) -> Seq<char>;

/// The child elements of an element, in document order. Children that are
/// not elements (text, CDATA, comments, processing instructions) are left out.
pub uninterp spec fn element_children(e: Element) -> Seq<Element>;

/// The text of an element: what `Element::get_text` gives, which is the
/// concatenation of its text and CDATA children, or nothing if it has none.
pub uninterp spec fn element_text(e: Element) -> Option<Seq<char>>;

/// The root element of the document that `bytes` holds, or nothing if the
/// bytes are not a well-formed XML document.
pub uninterp spec fn document_root(bytes: Seq<u8>) -> Option<Element>;

/// The elements of `cs` whose tag name is `name`, in order.
pub open spec fn named(cs: Seq<Element>, name: Seq<char>) -> Seq<Element>
    decreases cs.len(),
{
    if cs.len() == 0 {
        Seq::empty()
    } else if element_name(cs[0]) == name {
        seq![cs[0]] + named(cs.drop_first(), name)
    } else {
        named(cs.drop_first(), name)
    }
}

/// The first element of `cs` whose tag name is `name`.
pub open spec fn first_named(cs: Seq<Element>, name: Seq<char>) -> Option<Element> {
    let matching = named(cs, name);
    if matching.len() > 0 {
        Some(matching[0])
    } else {
        None
    }
}

/// `cs` with the first element whose tag name is `name` removed.
pub open spec fn without_first(cs: Seq<Element>, name: Seq<char>) -> Seq<Element>
    decreases cs.len(),
{
    if cs.len() == 0 {
        cs
    } else if element_name(cs[0]) == name {
        cs.drop_first()
    } else {
        seq![cs[0]] + without_first(cs.drop_first(), name)
    }
}

/// `cs` with every element whose tag name is `name` removed.
pub open spec fn without_all(cs: Seq<Element>, name: Seq<char>) -> Seq<Element>
    decreases cs.len(),
{
    if cs.len() == 0 {
        cs
    } else if element_name(cs[0]) == name {
        without_all(cs.drop_first(), name)
    } else {
        seq![cs[0]] + without_all(cs.drop_first(), name)
    }
}

/// Removing the first element called `name` shortens the elements of that
/// name by their head, and leaves the elements of every other name as they were.
pub proof fn lemma_without_first(cs: Seq<Element>, name: Seq<char>)
    ensures
        named(cs, name).len() == 0 ==> without_first(cs, name) == cs && without_all(cs, name) == cs,
        without_all(without_first(cs, name), name) == without_all(cs, name),
        named(cs, name).len() > 0 ==> {
            &&& without_first(cs, name).len() + 1 == cs.len()
            &&& named(without_first(cs, name), name) == named(cs, name).drop_first()
        },
        forall|other: Seq<char>|
            other != name ==> #[trigger] named(without_first(cs, name), other) == named(
                cs,
                other,
            ),
    decreases cs.len(),
{
    if cs.len() == 0 {
    } else if element_name(cs[0]) == name {
        assert(named(cs, name).drop_first() =~= named(cs.drop_first(), name));
    } else {
        let rest = cs.drop_first();
        let shorter = seq![cs[0]] + without_first(rest, name);
        lemma_without_first(rest, name);
        assert(shorter.drop_first() =~= without_first(rest, name));
        assert(shorter[0] == cs[0]);
        if named(cs, name).len() == 0 {
            assert(shorter =~= cs);
            assert(seq![cs[0]] + without_all(rest, name) =~= cs);
        }
        assert forall|other: Seq<char>| other != name implies #[trigger] named(
            without_first(cs, name),
            other,
        ) == named(cs, other) by {
            assert(named(without_first(rest, name), other) == named(rest, other));
        }
    }
}

/// `xmltree::Element::parse` on a byte slice: the root element of the
/// document, or the reader's error where the bytes are not well-formed XML.
/// The contract claims that the outcome depends on the bytes alone.
#[verifier::external_body]
pub(crate) fn parse_document(bytes: &[u8]) -> (r: Result<Element, XmlSyntaxError>)
    ensures
        match r {
            Ok(root) => document_root(bytes@) == Some(root),
            Err(_) => document_root(bytes@) is None,
        },
{
    Element::parse(bytes)
}

/// `xmltree::Element::take_child` with a tag name: removes the first child
/// element of that name and hands it out; where there is none, the element
/// stays as it was. The element's own name and text are not touched.
#[verifier::external_body]
pub(crate) fn take_child(element: &mut Element, name: &str) -> (r: Option<Element>)
    ensures
        r == first_named(element_children(*old(element)), name@),
        element_children(*final(element)) == without_first(
            element_children(*old(element)),
            name@,
        ),
        element_name(*final(element)) == element_name(*old(element)),
        element_text(*final(element)) == element_text(*old(element)),
{
    element.take_child(name)
}

/// `xmltree::Element::get_child` with a tag name: the first child element of
/// that name, if there is one.
#[verifier::external_body]
pub(crate) fn find_child<'a>(element: &'a Element, name: &str) -> (r: Option<&'a Element>)
    ensures
        match r {
            Some(child) => first_named(element_children(*element), name@) == Some(*child),
            None => first_named(element_children(*element), name@) is None,
        },
{
    element.get_child(name)
}

/// `xmltree::Element::get_text`, copied into an owned string.
#[verifier::external_body]
pub(crate) fn text_content(element: &Element) -> (r: Option<String>)
    ensures
        match r {
            Some(text) => element_text(*element) == Some(text@),
            None => element_text(*element) is None,
        },
{
    match element.get_text() {
        Some(text) => Some(text.into_owned()),
        None => None,
    }
}

/// `Clone::clone` of `xmltree::Element`, which is derived: a deep copy equal
/// to its source.
#[verifier::external_body]
pub(crate) fn clone_element(element: &Element) -> (r: Element)
    ensures
        r == *element,
{
    element.clone()
}

} // verus!
