//! Typed records of a spread (one printable unit) of the layout document:
//! pages and the renderable page items that can appear on them.

use vstd::prelude::*;

verus! {

/// One spread of the document: the ordered page contents.
#[derive(Debug)]
pub struct Spread {
    pub contents: Vec<Option<PageContent>>,
}

/// A page record inside a spread.
#[derive(Debug, Clone)]
pub struct Page {
    pub applied_master: Option<String>,
}

/// Any element that can appear in a spread, in document order.
#[derive(Debug)]
pub enum PageContent {
    FlattenerPreference(FlattenerPreference),
    Page(Page),
    Rectangle(Rectangle),
    Polygon(Polygon),
    Oval(Oval),
    Group(Group),
    TextFrame(TextFrame),
    Other,
}

impl Default for PageContent {
    fn default() -> (r: Self)
        ensures
            r is Other,
    {
        PageContent::Other
    }
}

/// Flattener settings of a spread; carried through unread.
#[derive(Debug, Clone)]
pub struct FlattenerPreference {}

/// A rectangle page item.
#[derive(Debug, Clone)]
pub struct Rectangle {
    pub id: String,
    pub fill_color: Option<String>,
}

/// A polygon page item.
#[derive(Debug, Clone)]
pub struct Polygon {
    pub id: String,
}

/// An oval page item.
#[derive(Debug, Clone)]
pub struct Oval {
    pub id: String,
}

/// A group of page items.
#[derive(Debug, Clone)]
pub struct Group {
    pub id: String,
}

/// A text frame page item.
#[derive(Debug, Clone)]
pub struct TextFrame {
    pub id: String,
    pub fill_color: Option<String>,
    pub parent_story: Option<String>,
    pub previous_text_frame: Option<String>,
    pub next_text_frame: Option<String>,
}

impl Spread {
    /// The identifier of the spread; the source format does not carry one on
    /// this record, so a fixed placeholder is returned.
    pub fn get_id(self) -> (r: String)
        ensures
            r@ == "dummy"@,
    {
        "dummy".to_owned()
    }
}

} // verus!
