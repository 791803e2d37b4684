//! Font names and styles, as fonts are looked up in the font configuration.
use vstd::prelude::*;

verus! {

pub const DEFAULT_FONT_NAME: &'static str = "sans serif";

#[derive(Debug, Clone, Copy, Hash, PartialEq, Eq, Structural)]
pub enum FontStyle {
    Regular,
    Italic,
    Bold,
}

/// The style name given to the font configuration; the regular style has none.
pub open spec fn style_name(style: FontStyle) -> Option<Seq<char>> {
    match style {
        FontStyle::Regular => None,
        FontStyle::Italic => Some("italic"@),
        FontStyle::Bold => Some("bold"@),
    }
}

impl FontStyle {
    pub fn as_str(&self) -> (r: Option<&str>)
        ensures
            style_name(*self) is None <==> r is None,
            r matches Some(s) ==> style_name(*self) == Some(s@),
    {
        match self {
            Self::Regular => None,
            Self::Italic => Some("italic"),
            Self::Bold => Some("bold"),
        }
    }
}

/// A font by name and style.
#[derive(Debug, Clone, Hash, PartialEq, Eq)]
pub struct FontProperty {
    pub name: String,
    pub style: FontStyle,
}

impl Default for FontProperty {
    /// The regular style of the default font.
    fn default() -> (r: Self)
        ensures
            r.name@ == DEFAULT_FONT_NAME@,
            r.style == FontStyle::Regular,
    {
        FontProperty::new(DEFAULT_FONT_NAME)
    }
}

impl FontProperty {
    /// The regular style of the font `name`.
    pub fn new(name: &str) -> (r: FontProperty)
        ensures
            r.name@ == name@,
            r.style == FontStyle::Regular,
    {
        FontProperty { name: name.to_owned(), style: FontStyle::Regular }
    }
}

} // verus!
