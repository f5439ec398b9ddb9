//! Reading a device's XML answers with `quick_xml`.

use vstd::prelude::*;
use quick_xml::Reader;
use quick_xml::events::Event;
use quick_xml::name::QName;

verus! {

/// The event reader of `quick_xml`, opaque here.
#[verifier::external_type_specification]
#[verifier::external_body]
#[verifier::reject_recursive_types(R)]
pub struct ExReader<R>(quick_xml::Reader<R>);

/// One step of reading a document, as the logic of this crate sees it.
pub ghost enum XmlItem {
    /// A start tag with its name, and the raw text up to its matching end
    /// tag where that text can be read.
    Start { name: Seq<char>, inner: Option<Seq<char>> },
    /// Any other event.
    Other,
    /// The reader reported an error.
    Failed,
}

/// What `Reader::read_event` hands out.
#[derive(Debug, Clone, PartialEq, Eq)]
pub enum XmlStep {
    /// A start tag, with its name.
    Start(String),
    /// Any other event.
    Other,
    /// An error.
    Failed,
    /// The end of the input.
    Eof,
}

/// The steps that reading the document `doc` from its start goes through.
pub uninterp spec fn xml_items(doc: Seq<char>) -> Seq<XmlItem>;

/// The steps that a reader still has before it: up to the end of its input,
/// or up to and including the first error.
pub uninterp spec fn pending(r: Reader<&[u8]>) -> Seq<XmlItem>;

/// The raw text that `Reader::read_text` would read next up to the end tag
/// named `end`, or `None` where it would fail.
pub uninterp spec fn inner_text(r: Reader<&[u8]>, end: Seq<char>) -> Option<Seq<char>>;

/// Calls `Reader::from_str`: a reader at the start of `doc`.
#[verifier::external_body]
pub(crate) fn open_reader<'a>(doc: &'a str) -> (r: Reader<&'a [u8]>)
    ensures
        pending(r) == xml_items(doc@),
{
    Reader::from_str(doc)
}

/// Calls `Reader::read_event` and tells its outcomes apart: a start tag with
/// its name, the end of the input, an error, or anything else. The reader
/// moves past what it handed out; after a start tag, `inner_text` under that
/// tag's name is the text of the element that was opened.
#[verifier::external_body]
pub(crate) fn next_step(r: &mut Reader<&[u8]>) -> (step: XmlStep)
    ensures
        pending(*old(r)).len() == 0 <==> step is Eof,
        pending(*old(r)).len() > 0 ==> match pending(*old(r))[0] {
            XmlItem::Start { name, inner } => step matches XmlStep::Start(n) && n@ == name
                && inner_text(*final(r), name) == inner && pending(*final(r)) == pending(
                *old(r),
            ).skip(1),
            XmlItem::Other => step is Other && pending(*final(r)) == pending(*old(r)).skip(1),
            XmlItem::Failed => step is Failed,
        },
{
    match r.read_event() {
        Ok(Event::Start(e)) => XmlStep::Start(e.name().0.to_owned()),
        Ok(Event::Eof) => XmlStep::Eof,
        Ok(_) => XmlStep::Other,
        Err(_) => XmlStep::Failed,
    }
}

/// Calls `Reader::read_text`, which reads the raw text up to the end tag
/// named `end`, markup included and nothing unescaped.
#[verifier::external_body]
pub(crate) fn read_inner(r: &mut Reader<&[u8]>, end: &str) -> (text: Option<String>)
    ensures
        match text {
            Some(t) => inner_text(*old(r), end@) == Some(t@),
            None => inner_text(*old(r), end@) is None,
        },
{
    r.read_text(QName(end)).ok().map(|t| t.into_inner().into_owned())
}

/// The raw text of the first element named `tag` among `items`: `None` where
/// no such element starts before the input ends or an error comes, or where
/// its text cannot be read.
pub open spec fn first_named(items: Seq<XmlItem>, tag: Seq<char>) -> Option<Seq<char>>
    decreases items.len(),
{
    if items.len() == 0 {
        None
    } else {
        match items[0] {
            XmlItem::Start { name, inner } => if name == tag {
                inner
            } else {
                first_named(items.skip(1), tag)
            },
            XmlItem::Other => first_named(items.skip(1), tag),
            XmlItem::Failed => None,
        }
    }
}

/// The text of an optional string.
pub open spec fn text_of(o: Option<String>) -> Option<Seq<char>> {
    match o {
        Some(s) => Some(s@),
        None => None,
    }
}

/// What a scan for an element does after one step.
#[derive(Debug, Clone, Copy, PartialEq, Eq, Structural)]
pub enum ScanMove {
    /// The element starts here: read its text.
    Take,
    /// Go on with the next step.
    Skip,
    /// The input ended or an error came: there is no such element.
    Stop,
}

/// What a scan for the element named `tag` does after `step`.
pub open spec fn move_after(step: XmlStep, tag: Seq<char>) -> ScanMove {
    match step {
        XmlStep::Start(name) => if name@ == tag {
            ScanMove::Take
        } else {
            ScanMove::Skip
        },
        XmlStep::Other => ScanMove::Skip,
        XmlStep::Failed => ScanMove::Stop,
        XmlStep::Eof => ScanMove::Stop,
    }
}

/// Decides what a scan for the element named `tag` does after `step`.
pub fn scan_step(step: &XmlStep, tag: &String) -> (r: ScanMove)
    ensures
        r == move_after(*step, tag@),
{
    match step {
        XmlStep::Start(name) => {
            if *name == *tag {
                ScanMove::Take
            } else {
                ScanMove::Skip
            }
        },
        XmlStep::Other => ScanMove::Skip,
        XmlStep::Failed => ScanMove::Stop,
        XmlStep::Eof => ScanMove::Stop,
    }
}

/// Reads `doc` up to the first element named `tag` and returns the raw text
/// between its start and end tags.
pub fn element_text(doc: &str, tag: &str) -> (r: Option<String>)
    ensures
        text_of(r) == first_named(xml_items(doc@), tag@),
{
    let wanted = tag.to_owned();
    let mut reader = open_reader(doc);
    loop
        invariant
            wanted@ == tag@,
            first_named(pending(reader), tag@) == first_named(xml_items(doc@), tag@),
        decreases pending(reader).len(),
    {
        let step = next_step(&mut reader);
        match scan_step(&step, &wanted) {
            ScanMove::Take => {
                return read_inner(&mut reader, tag);
            },
            ScanMove::Skip => {},
            ScanMove::Stop => {
                return None;
            },
        }
    }
}

} // verus!
