//! The header of a page: what it shows and how it is placed.
use vstd::prelude::*;

verus! {

/// The header of a page, with the page's title where it has one.
#[derive(Clone, Copy, Debug, PartialEq, Eq)]
pub enum Header<'a> {
    /// A header that stays at the top of the window while the page scrolls.
    Floating(Option<&'a str>),
    /// A header that scrolls away with the page.
    Static(Option<&'a str>),
}

impl<'a> Header<'a> {
    /// The title of the page, where the header shows one. A header without a title
    /// shows the name of the site instead.
    pub fn title(&self) -> (title: Option<&'a str>)
        ensures
            title == match *self {
                Header::Floating(title) => title,
                Header::Static(title) => title,
            },
    {
        match *self {
            Header::Floating(title) => title,
            Header::Static(title) => title,
        }
    }

    /// Whether the header stays at the top of the window.
    pub fn is_floating(&self) -> (floating: bool)
        ensures
            floating == (*self is Floating),
    {
        match *self {
            Header::Floating(_) => true,
            Header::Static(_) => false,
        }
    }

    /// The class that places the header: `sticky` for a floating header, `relative` for
    /// a static one.
    pub fn position_class(&self) -> (class: &'static str)
        ensures
            class@ == if *self is Floating {
                "sticky"@
            } else {
                "relative"@
            },
    {
        match *self {
            Header::Floating(_) => "sticky",
            Header::Static(_) => "relative",
        }
    }
}

} // verus!
