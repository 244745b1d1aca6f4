//! The address that an item links to, held as the text of a parsed URL.

use vstd::prelude::*;

verus! {

/// The serialization that `url::Url::parse` gives the absolute URL it reads
/// from `text`, and nothing where it refuses `text`.
pub uninterp spec fn url_serialization(text: Seq<char>) -> Option<Seq<char>>;

/// The address that `text` is taken for: none where `text` is empty, else
/// what the URL parser makes of it.
pub open spec fn link_of(text: Seq<char>) -> Option<Seq<char>> {
    if text.len() == 0 {
        None
    } else {
        url_serialization(text)
    }
}

/// Calls `url::Url::parse` on `text` and hands out the serialization of the
/// URL that it read, or nothing where it refused `text` with any of its
/// errors. The contract gives that outcome its name and claims no more.
#[verifier::external_body]
fn serialize_url(text: &str) -> (serialization: Option<String>)
    ensures
        match serialization {
            Some(s) => url_serialization(text@) == Some(s@),
            None => url_serialization(text@) is None,
        },
{
    match ::url::Url::parse(text) {
        Ok(parsed) => Some(String::from(parsed)),
        Err(_) => None,
    }
}

/// A syntactically valid absolute URL, as its serialization.
#[derive(Debug, PartialEq, Eq)]
pub struct Link {
    text: String,
}

impl View for Link {
    type V = Seq<char>;

    /// The serialization.
    closed spec fn view(&self) -> Seq<char> {
        self.text@
    }
}

/// The text of an address that may be absent.
pub open spec fn link_text(link: Option<Link>) -> Option<Seq<char>> {
    match link {
        Some(link) => Some(link@),
        None => None,
    }
}

impl Link {
    /// Reads an address. An empty text, or one that is no absolute URL,
    /// gives none: that is no failure.
    pub fn parse(text: &str) -> (link: Option<Link>)
        ensures
            link_text(link) == link_of(text@),
    {
        if text.is_empty() {
            None
        } else {
            match serialize_url(text) {
                Some(serialization) => Some(Link { text: serialization }),
                None => None,
            }
        }
    }

    /// The serialization of the address.
    pub fn as_str(&self) -> (text: &str)
        ensures
            text@ == self@,
    {
        self.text.as_str()
    }
}

impl Clone for Link {
    fn clone(&self) -> (copy: Link)
        ensures
            copy@ == self@,
    {
        Link { text: self.text.clone() }
    }
}

} // verus!
