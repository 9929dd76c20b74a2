//! Resource identifiers, and how a raw attribute value becomes one.

use vstd::prelude::*;

verus! {

/// The absolute location that `raw` spells out on its own: the text in which
/// `url::Url::parse` serialises it, or `None` where it refuses `raw`. It
/// depends on `raw` alone.
pub uninterp spec fn absolute_reference(raw: Seq<char>) -> Option<Seq<char>>;

/// The absolute location that `raw` denotes when read relative to `base`:
/// the text in which `url::Url::join` serialises it, or `None` where `base`
/// is no location itself or `raw` cannot be joined to it. It depends on the
/// two texts alone.
pub uninterp spec fn joined_reference(base: Seq<char>, raw: Seq<char>) -> Option<Seq<char>>;

/// The absolute location that `raw` denotes: relative to `base` where there
/// is one, on its own where there is none; `None` where it denotes none.
pub open spec fn resolved_reference(raw: Seq<char>, base: Option<Seq<char>>) -> Option<
    Seq<char>,
> {
    match base {
        Some(b) => joined_reference(b, raw),
        None => absolute_reference(raw),
    }
}

/// The characters of an optional text.
pub open spec fn text_of(text: Option<&str>) -> Option<Seq<char>> {
    match text {
        Some(t) => Some(t@),
        None => None,
    }
}

/// The characters of an optional owned text.
pub open spec fn text_of_owned(text: Option<String>) -> Option<Seq<char>> {
    match text {
        Some(t) => Some(t@),
        None => None,
    }
}

/// Calls `url::Url::parse` on `raw` and hands back the parsed location in
/// its serialised form, or `None` where the parser refuses. Nothing is
/// proved of this call; the contract only gives its outcome a name.
#[verifier::external_body]
fn parse_absolute(raw: &str) -> (href: Option<String>)
    ensures
        text_of_owned(href) == absolute_reference(raw@),
{
    url::Url::parse(raw).ok().map(String::from)
}

/// Calls `url::Url::join` on the location that `base` spells out, with `raw`
/// as the reference, and hands back the joined location in its serialised
/// form; `None` where `url::Url::parse` refuses `base` or the join fails.
/// Nothing is proved of this call; the contract only gives its outcome a
/// name.
#[verifier::external_body]
fn join_to_base(base: &str, raw: &str) -> (href: Option<String>)
    ensures
        text_of_owned(href) == joined_reference(base@, raw@),
{
    url::Url::parse(base).ok()?.join(raw).ok().map(String::from)
}

/// An absolute, fully resolved location of a resource. Its view is the text
/// of the location.
#[derive(Debug)]
pub struct ResourceIdentifier {
    href: String,
}

impl View for ResourceIdentifier {
    type V = Seq<char>;

    closed spec fn view(&self) -> Seq<char> {
        self.href@
    }
}

/// The text of an optional identifier.
pub open spec fn reference_text(reference: Option<ResourceIdentifier>) -> Option<Seq<char>> {
    match reference {
        Some(r) => Some(r@),
        None => None,
    }
}

impl ResourceIdentifier {
    /// Resolves `raw` against `base`, or on its own where there is no base.
    /// The result is the identifier of the location that the texts denote,
    /// and `None` exactly where they denote none.
    pub fn resolve(raw: &str, base: Option<&str>) -> (reference: Option<ResourceIdentifier>)
        ensures
            reference_text(reference) == resolved_reference(raw@, text_of(base)),
    {
        let resolved = match base {
            Some(b) => join_to_base(b, raw),
            None => parse_absolute(raw),
        };
        match resolved {
            Some(href) => Some(ResourceIdentifier { href }),
            None => None,
        }
    }

    /// The text of the location.
    pub fn as_str(&self) -> (text: &str)
        ensures
            text@ == self@,
    {
        self.href.as_str()
    }

    /// A second identifier of the same location.
    pub fn duplicate(&self) -> (copy: ResourceIdentifier)
        ensures
            copy == *self,
    {
        ResourceIdentifier { href: self.href.clone() }
    }
}

} // verus!
