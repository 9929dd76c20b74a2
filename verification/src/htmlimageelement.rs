//! The image element: its cached resource reference, the attribute
//! notifications that keep it current, and its geometry accessors.

use vstd::prelude::*;
use crate::attribute::{decimal, to_decimal, AttributeWrite, ErrorResult};
use crate::geometry::{px_of, to_px};
use crate::image_cache_task::{target_of, Msg};
use crate::layout_interface::{
    ContentBoxResponse, Dimension, GeometryRead, LayoutQuery, TrustedNodeAddress,
};
use crate::resource::{reference_text, resolved_reference, text_of_owned, ResourceIdentifier};

verus! {

/// The name of the one attribute whose changes the element reacts to.
pub open spec fn watched_attribute() -> Seq<char> {
    "src"@
}

/// Whether `name` is the watched attribute.
pub fn is_watched(name: &str) -> (watched: bool)
    ensures
        watched == (name@ == watched_attribute()),
{
    let given: String = name.to_owned();
    let wanted: String = "src".to_owned();
    given == wanted
}

/// One committed change of the watched attribute, as the element sees it.
pub ghost enum Mutation {
    /// The attribute now has `value`, and the document is at `base`.
    Assigned { value: Seq<char>, base: Option<Seq<char>> },
    /// The attribute is gone.
    Removed,
}

/// The change that a call of `update_image` stands for.
pub open spec fn mutation_of(value: Option<String>, url: Option<String>) -> Mutation {
    match value {
        Some(v) => Mutation::Assigned { value: v@, base: text_of_owned(url) },
        None => Mutation::Removed,
    }
}

/// The cached reference after one change. What was cached `before` plays no
/// part: a value that resolves puts its identifier there, and a removal, or
/// a value that does not resolve, leaves nothing.
pub open spec fn reference_after(before: Option<Seq<char>>, change: Mutation) -> Option<
    Seq<char>,
> {
    match change {
        Mutation::Assigned { value, base } => resolved_reference(value, base),
        Mutation::Removed => None,
    }
}

/// The prefetch that one change owes the image cache: its target, or `None`
/// where it owes none. Only a value that resolves owes one.
pub open spec fn prefetch_owed(change: Mutation) -> Option<Seq<char>> {
    match change {
        Mutation::Assigned { value, base } => resolved_reference(value, base),
        Mutation::Removed => None,
    }
}

/// An image element.
///
/// `image` is the cached reference: absent while the element has no `src`,
/// and otherwise what the attribute's value resolved to when it was last
/// set, which is absent again where it did not resolve. It is resolved once,
/// against the document's location at that moment, and not again when the
/// document moves.
#[derive(Debug)]
pub struct HTMLImageElement {
    local_name: String,
    address: TrustedNodeAddress,
    image: Option<ResourceIdentifier>,
}

#[allow(non_snake_case)]
impl HTMLImageElement {
    /// The element's tag name.
    pub closed spec fn local_name_spec(&self) -> Seq<char> {
        self.local_name@
    }

    /// The token under which other threads know this element.
    pub closed spec fn address_spec(&self) -> TrustedNodeAddress {
        self.address
    }

    /// The identifier that the element holds, if any.
    pub closed spec fn image_spec(&self) -> Option<ResourceIdentifier> {
        self.image
    }

    /// The text of the cached reference, if there is one.
    pub open spec fn cached_reference(&self) -> Option<Seq<char>> {
        reference_text(self.image_spec())
    }

    /// An element with the tag name `localName`, known to other threads as
    /// `address`, and with no reference cached.
    pub fn new_inherited(localName: String, address: TrustedNodeAddress) -> (element:
        HTMLImageElement)
        ensures
            element.local_name_spec() == localName@,
            element.address_spec() == address,
            element.image_spec().is_none(),
    {
        HTMLImageElement { local_name: localName, address, image: None }
    }

    /// The same element as `new_inherited` gives, on the heap.
    pub fn new(localName: String, address: TrustedNodeAddress) -> (element: Box<HTMLImageElement>)
        ensures
            element.local_name_spec() == localName@,
            element.address_spec() == address,
            element.image_spec().is_none(),
    {
        Box::new(HTMLImageElement::new_inherited(localName, address))
    }

    /// The element's tag name.
    pub fn local_name(&self) -> (name: &str)
        ensures
            name@ == self.local_name_spec(),
    {
        self.local_name.as_str()
    }

    /// The token under which other threads know this element.
    pub fn address(&self) -> (address: TrustedNodeAddress)
        ensures
            address == self.address_spec(),
    {
        self.address
    }

    /// The cached reference.
    pub fn image(&self) -> (image: &Option<ResourceIdentifier>)
        ensures
            *image == self.image_spec(),
    {
        &self.image
    }

    /// Stores the outcome of a resolution and says what the image cache is
    /// owed for it: one prefetch of the new identifier, or nothing where the
    /// resolution gave none.
    pub fn commit_reference(&mut self, resolved: Option<ResourceIdentifier>) -> (prefetch: Option<
        Msg,
    >)
        ensures
            final(self).image_spec() == resolved,
            final(self).local_name_spec() == old(self).local_name_spec(),
            final(self).address_spec() == old(self).address_spec(),
            match resolved {
                Some(reference) => prefetch == Some(Msg::Prefetch(reference)),
                None => prefetch.is_none(),
            },
    {
        match resolved {
            Some(reference) => {
                // The cache gets an identifier of its own; no handle to what
                // it fetches is kept here.
                let request = Msg::Prefetch(reference.duplicate());
                self.image = Some(reference);
                Some(request)
            },
            None => {
                self.image = None;
                None
            },
        }
    }

    /// Makes the cached reference match the state of the `src` attribute:
    /// `value` is the attribute's new value, or `None` once it is gone, and
    /// `url` the document's location at this moment. With a value, the
    /// reference becomes what the value resolves to against `url`, and a
    /// prefetch of it is owed; if it does not resolve, or without a value,
    /// the reference is cleared and nothing is owed. What was cached before
    /// plays no part.
    pub fn update_image(&mut self, value: Option<String>, url: Option<String>) -> (prefetch:
        Option<Msg>)
        ensures
            final(self).cached_reference() == reference_after(
                old(self).cached_reference(),
                mutation_of(value, url),
            ),
            target_of(prefetch) == prefetch_owed(mutation_of(value, url)),
            match value {
                Some(v) => {
                    &&& final(self).cached_reference() == resolved_reference(
                        v@,
                        text_of_owned(url),
                    )
                    &&& target_of(prefetch) == final(self).cached_reference()
                },
                None => final(self).image_spec().is_none() && prefetch.is_none(),
            },
            final(self).local_name_spec() == old(self).local_name_spec(),
            final(self).address_spec() == old(self).address_spec(),
    {
        match value {
            None => {
                self.image = None;
                None
            },
            Some(src) => {
                let base: Option<&str> = match &url {
                    Some(u) => Some(u.as_str()),
                    None => None,
                };
                let resolved = ResourceIdentifier::resolve(src.as_str(), base);
                self.commit_reference(resolved)
            },
        }
    }

    /// The attribute store has set the attribute `name` to `value`, while
    /// the document was at `document_url`. For `src` the cached reference
    /// becomes what `value` resolves to against `document_url`, with one
    /// prefetch of it owed, or is cleared with nothing owed where `value`
    /// does not resolve. Any other attribute leaves the element as it was.
    pub fn AfterSetAttr(&mut self, name: String, value: String, document_url: String) -> (prefetch:
        Option<Msg>)
        ensures
            name@ == watched_attribute() ==> {
                &&& final(self).cached_reference() == reference_after(
                    old(self).cached_reference(),
                    (Mutation::Assigned { value: value@, base: Some(document_url@) }),
                )
                &&& target_of(prefetch) == prefetch_owed(
                    (Mutation::Assigned { value: value@, base: Some(document_url@) }),
                )
                &&& final(self).cached_reference() == resolved_reference(
                    value@,
                    Some(document_url@),
                )
                &&& target_of(prefetch) == final(self).cached_reference()
            },
            name@ != watched_attribute() ==> {
                &&& final(self).image_spec() == old(self).image_spec()
                &&& prefetch.is_none()
            },
            final(self).local_name_spec() == old(self).local_name_spec(),
            final(self).address_spec() == old(self).address_spec(),
    {
        if is_watched(name.as_str()) {
            self.update_image(Some(value), Some(document_url))
        } else {
            None
        }
    }

    /// The attribute store is about to remove the attribute `name`. For
    /// `src` the cached reference is cleared. Any other attribute leaves the
    /// element as it was. No prefetch is ever owed for a removal.
    pub fn BeforeRemoveAttr(&mut self, name: String) -> (prefetch: Option<Msg>)
        ensures
            prefetch.is_none(),
            name@ == watched_attribute() ==> {
                &&& final(self).cached_reference() == reference_after(
                    old(self).cached_reference(),
                    Mutation::Removed,
                )
                &&& final(self).image_spec().is_none()
            },
            name@ != watched_attribute() ==> final(self).image_spec() == old(self).image_spec(),
            final(self).local_name_spec() == old(self).local_name_spec(),
            final(self).address_spec() == old(self).address_spec(),
    {
        if is_watched(name.as_str()) {
            self.update_image(None, None)
        } else {
            None
        }
    }

    /// The question that a geometry accessor puts to layout: where the
    /// content box of this element is, with `chan` as the place for the one
    /// answer. Each read of an accessor asks once, with a channel of its
    /// own.
    pub fn content_box_query<C>(&self, chan: C) -> (query: LayoutQuery<C>)
        ensures
            query == LayoutQuery::ContentBoxQuery(self.address_spec(), chan),
    {
        LayoutQuery::ContentBoxQuery(self.address, chan)
    }

    /// Begins one read of a geometry accessor. The caller owes layout the
    /// one query that comes back, and the read then waits for the one
    /// answer to it on `chan`'s other half.
    pub fn begin_read<C>(&self, dimension: Dimension, chan: C) -> (started: (
        GeometryRead,
        LayoutQuery<C>,
    ))
        ensures
            started.0 == GeometryRead::AwaitingResponse(dimension),
            started.1 == LayoutQuery::ContentBoxQuery(self.address_spec(), chan),
    {
        (GeometryRead::begin(dimension), self.content_box_query(chan))
    }

    /// The alternative text. Always empty.
    pub fn Alt(&self) -> (text: String)
        ensures
            text@ == Seq::<char>::empty(),
    {
        String::new()
    }

    /// Sets the alternative text. Accepted and not kept.
    pub fn SetAlt(&mut self, _alt: String) -> (result: ErrorResult)
        ensures
            result is Ok,
            *final(self) == *old(self),
    {
        Ok(())
    }

    /// The `src` attribute as scripts read it. Always empty.
    pub fn Src(&self) -> (text: String)
        ensures
            text@ == Seq::<char>::empty(),
    {
        String::new()
    }

    /// Asks the attribute store to set `src` to the given text. The element
    /// itself is untouched: the cached reference follows when the store
    /// reports the change through `AfterSetAttr`.
    pub fn SetSrc(&mut self, src: String) -> (write: AttributeWrite)
        ensures
            write.name@ == watched_attribute(),
            write.value@ == src@,
            *final(self) == *old(self),
    {
        AttributeWrite { name: "src".to_owned(), value: src }
    }

    /// The cross-origin setting. Always empty.
    pub fn CrossOrigin(&self) -> (text: String)
        ensures
            text@ == Seq::<char>::empty(),
    {
        String::new()
    }

    /// Sets the cross-origin setting. Accepted and not kept.
    pub fn SetCrossOrigin(&mut self, _cross_origin: String) -> (result: ErrorResult)
        ensures
            result is Ok,
            *final(self) == *old(self),
    {
        Ok(())
    }

    /// The name of the image map in use. Always empty.
    pub fn UseMap(&self) -> (text: String)
        ensures
            text@ == Seq::<char>::empty(),
    {
        String::new()
    }

    /// Sets the name of the image map in use. Accepted and not kept.
    pub fn SetUseMap(&mut self, _use_map: String) -> (result: ErrorResult)
        ensures
            result is Ok,
            *final(self) == *old(self),
    {
        Ok(())
    }

    /// Whether the image is a server-side map. Always false.
    pub fn IsMap(&self) -> (flag: bool)
        ensures
            !flag,
    {
        false
    }

    /// Sets whether the image is a server-side map. Accepted and not kept.
    pub fn SetIsMap(&self, _is_map: bool) -> (result: ErrorResult)
        ensures
            result is Ok,
    {
        Ok(())
    }

    /// The element's width in whole pixels, from layout's answer to the
    /// element's content box query: cut off, not rounded, and zero for a
    /// negative width.
    pub fn Width(&self, response: &ContentBoxResponse) -> (px: u32)
        ensures
            px as int == px_of(response.0.size.width),
    {
        to_px(response.0.size.width)
    }

    /// Asks the attribute store to set `width` to the decimal text of the
    /// given number. Layout is not consulted.
    pub fn SetWidth(&mut self, width: u32) -> (write: AttributeWrite)
        ensures
            write.name@ == "width"@,
            write.value@ == decimal(width as nat),
            *final(self) == *old(self),
    {
        AttributeWrite { name: "width".to_owned(), value: to_decimal(width) }
    }

    /// The element's height in whole pixels, from layout's answer to the
    /// element's content box query: cut off, not rounded, and zero for a
    /// negative height.
    pub fn Height(&self, response: &ContentBoxResponse) -> (px: u32)
        ensures
            px as int == px_of(response.0.size.height),
    {
        to_px(response.0.size.height)
    }

    /// Asks the attribute store to set `height` to the decimal text of the
    /// given number. Layout is not consulted.
    pub fn SetHeight(&mut self, height: u32) -> (write: AttributeWrite)
        ensures
            write.name@ == "height"@,
            write.value@ == decimal(height as nat),
            *final(self) == *old(self),
    {
        AttributeWrite { name: "height".to_owned(), value: to_decimal(height) }
    }

    /// The width of the image itself. Always zero.
    pub fn NaturalWidth(&self) -> (n: u32)
        ensures
            n == 0,
    {
        0
    }

    /// The height of the image itself. Always zero.
    pub fn NaturalHeight(&self) -> (n: u32)
        ensures
            n == 0,
    {
        0
    }

    /// Whether the image has been loaded. Always false.
    pub fn Complete(&self) -> (flag: bool)
        ensures
            !flag,
    {
        false
    }

    /// The element name. Always empty.
    pub fn Name(&self) -> (text: String)
        ensures
            text@ == Seq::<char>::empty(),
    {
        String::new()
    }

    /// Sets the element name. Accepted and not kept.
    pub fn SetName(&mut self, _name: String) -> (result: ErrorResult)
        ensures
            result is Ok,
            *final(self) == *old(self),
    {
        Ok(())
    }

    /// The alignment. Always empty.
    pub fn Align(&self) -> (text: String)
        ensures
            text@ == Seq::<char>::empty(),
    {
        String::new()
    }

    /// Sets the alignment. Accepted and not kept.
    pub fn SetAlign(&mut self, _align: String) -> (result: ErrorResult)
        ensures
            result is Ok,
            *final(self) == *old(self),
    {
        Ok(())
    }

    /// The horizontal margin. Always zero.
    pub fn Hspace(&self) -> (n: u32)
        ensures
            n == 0,
    {
        0
    }

    /// Sets the horizontal margin. Accepted and not kept.
    pub fn SetHspace(&mut self, _hspace: u32) -> (result: ErrorResult)
        ensures
            result is Ok,
            *final(self) == *old(self),
    {
        Ok(())
    }

    /// The vertical margin. Always zero.
    pub fn Vspace(&self) -> (n: u32)
        ensures
            n == 0,
    {
        0
    }

    /// Sets the vertical margin. Accepted and not kept.
    pub fn SetVspace(&mut self, _vspace: u32) -> (result: ErrorResult)
        ensures
            result is Ok,
            *final(self) == *old(self),
    {
        Ok(())
    }

    /// The location of a long description. Always empty.
    pub fn LongDesc(&self) -> (text: String)
        ensures
            text@ == Seq::<char>::empty(),
    {
        String::new()
    }

    /// Sets the location of a long description. Accepted and not kept.
    pub fn SetLongDesc(&mut self, _longdesc: String) -> (result: ErrorResult)
        ensures
            result is Ok,
            *final(self) == *old(self),
    {
        Ok(())
    }

    /// The border width. Always empty.
    pub fn Border(&self) -> (text: String)
        ensures
            text@ == Seq::<char>::empty(),
    {
        String::new()
    }

    /// Sets the border width. Accepted and not kept.
    pub fn SetBorder(&mut self, _border: String) -> (result: ErrorResult)
        ensures
            result is Ok,
            *final(self) == *old(self),
    {
        Ok(())
    }
}

/// The cached reference after a run of changes, oldest first, starting from
/// `initial`.
pub open spec fn reference_after_all(initial: Option<Seq<char>>, changes: Seq<Mutation>) -> Option<
    Seq<char>,
>
    decreases changes.len(),
{
    if changes.len() == 0 {
        initial
    } else {
        reference_after(reference_after_all(initial, changes.drop_last()), changes.last())
    }
}

/// The targets of the prefetches that a run of changes owes, in the order of
/// the changes.
pub open spec fn prefetches_owed(changes: Seq<Mutation>) -> Seq<Seq<char>>
    decreases changes.len(),
{
    if changes.len() == 0 {
        Seq::empty()
    } else {
        let earlier = prefetches_owed(changes.drop_last());
        match prefetch_owed(changes.last()) {
            Some(target) => earlier.push(target),
            None => earlier,
        }
    }
}

/// Whether a change leaves the element without a reference: a removal does,
/// and so does a value that does not resolve.
pub open spec fn clears_reference(change: Mutation) -> bool {
    match change {
        Mutation::Assigned { value, base } => resolved_reference(value, base).is_none(),
        Mutation::Removed => true,
    }
}

/// After any run of changes, whatever the element held before, the cached
/// reference is what the last change alone gives: it is absent exactly when
/// that change was a removal or set a value that does not resolve.
pub proof fn reference_follows_last_change(initial: Option<Seq<char>>, changes: Seq<Mutation>)
    requires
        changes.len() > 0,
    ensures
        reference_after_all(initial, changes) == reference_after(None, changes.last()),
        reference_after_all(initial, changes).is_none() <==> clears_reference(changes.last()),
{
}

/// A change that sets a value which resolves leaves exactly that identifier
/// cached, whatever was cached before, and adds exactly one prefetch, of
/// that identifier, to what the changes before it owe.
pub proof fn resolvable_value_is_cached_and_prefetched(
    before: Option<Seq<char>>,
    earlier: Seq<Mutation>,
    value: Seq<char>,
    base: Option<Seq<char>>,
)
    requires
        resolved_reference(value, base).is_some(),
    ensures
        reference_after(before, (Mutation::Assigned { value, base })) == resolved_reference(
            value,
            base,
        ),
        prefetch_owed((Mutation::Assigned { value, base })) == resolved_reference(value, base),
        prefetches_owed(earlier.push(Mutation::Assigned { value, base })) == prefetches_owed(
            earlier,
        ).push(resolved_reference(value, base).unwrap()),
{
    let change = Mutation::Assigned { value, base };
    assert(earlier.push(change).drop_last() =~= earlier);
}

/// A removal owes no prefetch: it adds nothing to what the changes before
/// it owe.
pub proof fn removal_owes_no_prefetch(earlier: Seq<Mutation>)
    ensures
        prefetch_owed(Mutation::Removed).is_none(),
        prefetches_owed(earlier.push(Mutation::Removed)) == prefetches_owed(earlier),
{
    assert(earlier.push(Mutation::Removed).drop_last() =~= earlier);
}

/// A run of changes owes one prefetch for each of its changes that sets a
/// value which resolves, and so never more than it has changes.
pub proof fn one_prefetch_for_each_resolvable_value(changes: Seq<Mutation>)
    ensures
        prefetches_owed(changes).len() == changes.filter(
            |change: Mutation| !clears_reference(change),
        ).len(),
        prefetches_owed(changes).len() <= changes.len(),
    decreases changes.len(),
{
    reveal(Seq::filter);
    if changes.len() > 0 {
        one_prefetch_for_each_resolvable_value(changes.drop_last());
    }
}

} // verus!
