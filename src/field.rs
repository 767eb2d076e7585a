//! Window records and the attribute selectors that read them.
use vstd::prelude::*;
use crate::text::same_text;

verus! {

/// One window as the window manager reports it at query time.
pub struct Client {
    pub class: String,
    pub address: String,
    pub initial_class: Option<String>,
    pub title: Option<String>,
    pub initial_title: Option<String>,
    pub tag: Option<String>,
    pub xdg_tag: Option<String>,
}

/// The characters of an optional string.
pub open spec fn opt_view(s: Option<String>) -> Option<Seq<char>> {
    match s {
        Some(v) => Some(v@),
        None => None,
    }
}

/// An attribute of a window that a condition can select.
#[derive(PartialEq, Eq, Structural, Clone, Copy, Debug)]
pub enum MatchField {
    Class,
    InitialClass,
    Title,
    InitialTitle,
    Tag,
    XdgTag,
}

/// The selector that an alias names, if any (case-sensitive, no trimming).
pub open spec fn field_of_alias(a: Seq<char>) -> Option<MatchField> {
    if a == "class"@ || a == "c"@ {
        Some(MatchField::Class)
    } else if a == "initial-class"@ || a == "initialClass"@ {
        Some(MatchField::InitialClass)
    } else if a == "title"@ {
        Some(MatchField::Title)
    } else if a == "initial-title"@ || a == "initialTitle"@ {
        Some(MatchField::InitialTitle)
    } else if a == "tag"@ {
        Some(MatchField::Tag)
    } else if a == "xdgtag"@ || a == "xdg-tag"@ || a == "xdgTag"@ {
        Some(MatchField::XdgTag)
    } else {
        None
    }
}

fn opt_str<'a>(s: &'a Option<String>) -> (r: Option<&'a str>)
    ensures
        match r {
            Some(v) => opt_view(*s) == Some(v@),
            None => s is None,
        },
{
    match s {
        Some(v) => Some(v.as_str()),
        None => None,
    }
}

impl MatchField {
    /// The value this selector reads from `c`; only `class` is always present.
    pub open spec fn spec_value(self, c: Client) -> Option<Seq<char>> {
        match self {
            MatchField::Class => Some(c.class@),
            MatchField::InitialClass => opt_view(c.initial_class),
            MatchField::Title => opt_view(c.title),
            MatchField::InitialTitle => opt_view(c.initial_title),
            MatchField::Tag => opt_view(c.tag),
            MatchField::XdgTag => opt_view(c.xdg_tag),
        }
    }

    /// Resolves an alias to its selector; an unknown alias gives `None`.
    pub fn parse(raw: &str) -> (r: Option<MatchField>)
        ensures
            r == field_of_alias(raw@),
    {
        if same_text(raw, "class") || same_text(raw, "c") {
            Some(MatchField::Class)
        } else if same_text(raw, "initial-class") || same_text(raw, "initialClass") {
            Some(MatchField::InitialClass)
        } else if same_text(raw, "title") {
            Some(MatchField::Title)
        } else if same_text(raw, "initial-title") || same_text(raw, "initialTitle") {
            Some(MatchField::InitialTitle)
        } else if same_text(raw, "tag") {
            Some(MatchField::Tag)
        } else if same_text(raw, "xdgtag") || same_text(raw, "xdg-tag") || same_text(
            raw,
            "xdgTag",
        ) {
            Some(MatchField::XdgTag)
        } else {
            None
        }
    }

    /// The value this selector reads from `client`.
    pub fn value<'a>(&self, client: &'a Client) -> (r: Option<&'a str>)
        ensures
            match r {
                Some(v) => self.spec_value(*client) == Some(v@),
                None => self.spec_value(*client) is None,
            },
    {
        match self {
            MatchField::Class => Some(client.class.as_str()),
            MatchField::InitialClass => opt_str(&client.initial_class),
            MatchField::Title => opt_str(&client.title),
            MatchField::InitialTitle => opt_str(&client.initial_title),
            MatchField::Tag => opt_str(&client.tag),
            MatchField::XdgTag => opt_str(&client.xdg_tag),
        }
    }
}

} // verus!
