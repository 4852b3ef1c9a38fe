use vstd::prelude::*;

pub use readfeed::atom::Iter as AtomRawIter;
pub use readfeed::rss::Iter as RssRawIter;

use crate::feed::links::{LinkCandidate, LinkModel};

verus! {

// ---------------------------------------------------------------------------
// Declarations of the tokenizer's opaque cursor types.
// ---------------------------------------------------------------------------

#[verifier::external_type_specification]
#[verifier::external_body]
pub struct ExAtomIter<'a>(AtomRawIter<'a>);

#[verifier::external_type_specification]
#[verifier::external_body]
pub struct ExAtomFeedIter<'a>(readfeed::atom::FeedIter<'a>);

#[verifier::external_type_specification]
#[verifier::external_body]
pub struct ExAtomEntryIter<'a>(readfeed::atom::EntryIter<'a>);

#[verifier::external_type_specification]
#[verifier::external_body]
pub struct ExAtomSourceIter<'a>(readfeed::atom::SourceIter<'a>);

#[verifier::external_type_specification]
#[verifier::external_body]
pub struct ExAtomLink<'a>(readfeed::atom::Link<'a>);

#[verifier::external_type_specification]
#[verifier::external_body]
pub struct ExRssIter<'a>(RssRawIter<'a>);

#[verifier::external_type_specification]
#[verifier::external_body]
pub struct ExRssRootIter<'a>(readfeed::rss::RssIter<'a>);

#[verifier::external_type_specification]
#[verifier::external_body]
pub struct ExRssChannelIter<'a>(readfeed::rss::ChannelIter<'a>);

#[verifier::external_type_specification]
#[verifier::external_body]
pub struct ExRssItemIter<'a>(readfeed::rss::ChannelItemIter<'a>);

// ---------------------------------------------------------------------------
// The schema-level element streams, as plain values.
// ---------------------------------------------------------------------------

/// The classification of a raw document.
#[derive(Debug, Clone, Copy, PartialEq, Eq, Structural)]
pub enum FeedKind {
    Atom,
    Rss,
    Json,
    Unknown,
    XmlOrHtml,
}

/// A top-level element of an Atom-family document.
pub enum AtomDocElem<'a> {
    Feed(readfeed::atom::FeedIter<'a>),
    Other,
}

/// A child element of an Atom feed container.
pub enum AtomFeedElem<'a> {
    Title(&'a str),
    Subtitle(&'a str),
    Link(LinkCandidate<'a>),
    Entry(readfeed::atom::EntryIter<'a>),
    Other,
}

/// A child element of an Atom entry container.
pub enum AtomEntryElem<'a> {
    Content(&'a str),
    Id(&'a str),
    Summary(&'a str),
    Title(&'a str),
    Updated(&'a str),
    Published(&'a str),
    Link(LinkCandidate<'a>),
    Source(readfeed::atom::SourceIter<'a>),
    Other,
}

/// A child element of an entry's source container.
pub enum AtomSourceElem<'a> {
    Link(LinkCandidate<'a>),
    Other,
}

/// A top-level element of an RSS-family document.
pub enum RssDocElem<'a> {
    Rss(readfeed::rss::RssIter<'a>),
    Other,
}

/// A child element of an RSS root.
pub enum RssRootElem<'a> {
    Channel(readfeed::rss::ChannelIter<'a>),
    Other,
}

/// A child element of an RSS channel container.
pub enum RssChannelElem<'a> {
    Title(&'a str),
    Description(&'a str),
    Link(&'a str),
    Item(readfeed::rss::ChannelItemIter<'a>),
    Other,
}

/// A child element of an RSS item container.
pub enum RssItemElem<'a> {
    Title(&'a str),
    Link(&'a str),
    Description(&'a str),
    Guid(&'a str),
    PubDate(&'a str),
    Other,
}

// ---------------------------------------------------------------------------
// The ghost images of those streams.
// ---------------------------------------------------------------------------

pub ghost enum AtomDocEv {
    Feed(Seq<AtomFeedEv>),
    Other,
}

pub ghost enum AtomFeedEv {
    Title(Seq<char>),
    Subtitle(Seq<char>),
    Link(LinkModel),
    Entry(Seq<AtomEntryEv>),
    Other,
}

pub ghost enum AtomEntryEv {
    Content(Seq<char>),
    Id(Seq<char>),
    Summary(Seq<char>),
    Title(Seq<char>),
    Updated(Seq<char>),
    Published(Seq<char>),
    Link(LinkModel),
    Source(Seq<AtomSourceEv>),
    Other,
}

pub ghost enum AtomSourceEv {
    Link(LinkModel),
    Other,
}

pub ghost enum RssDocEv {
    Rss(Seq<RssRootEv>),
    Other,
}

pub ghost enum RssRootEv {
    Channel(Seq<RssChannelEv>),
    Other,
}

pub ghost enum RssChannelEv {
    Title(Seq<char>),
    Description(Seq<char>),
    Link(Seq<char>),
    Item(Seq<RssItemEv>),
    Other,
}

pub ghost enum RssItemEv {
    Title(Seq<char>),
    Link(Seq<char>),
    Description(Seq<char>),
    Guid(Seq<char>),
    PubDate(Seq<char>),
    Other,
}

// ---------------------------------------------------------------------------
// Names for what the tokenizer yields. Each cursor's remaining elements are
// a sequence of ghost events; a fresh cursor's elements are a function of
// the input text alone.
// ---------------------------------------------------------------------------

/// What `readfeed::detect_type` decides for a given text.
pub uninterp spec fn detect_kind_of(s: Seq<char>) -> FeedKind;

/// The `rel`, `type` and `href` attributes of an Atom link element.
pub uninterp spec fn link_fields_of(l: readfeed::atom::Link) -> LinkModel;

/// The remaining top-level elements of an Atom document cursor.
pub uninterp spec fn atom_doc_elems(it: AtomRawIter) -> Seq<AtomDocEv>;

/// The top-level elements that tokenizing a text as Atom yields.
pub uninterp spec fn atom_docs_of(s: Seq<char>) -> Seq<AtomDocEv>;

/// The remaining child elements of an Atom feed cursor.
pub uninterp spec fn atom_feed_elems(it: readfeed::atom::FeedIter) -> Seq<AtomFeedEv>;

/// The remaining child elements of an Atom entry cursor.
pub uninterp spec fn atom_entry_elems(it: readfeed::atom::EntryIter) -> Seq<AtomEntryEv>;

/// The remaining child elements of an Atom source cursor.
pub uninterp spec fn atom_source_elems(it: readfeed::atom::SourceIter) -> Seq<AtomSourceEv>;

/// The remaining top-level elements of an RSS document cursor.
pub uninterp spec fn rss_doc_elems(it: RssRawIter) -> Seq<RssDocEv>;

/// The top-level elements that tokenizing a text as RSS yields.
pub uninterp spec fn rss_docs_of(s: Seq<char>) -> Seq<RssDocEv>;

/// The remaining child elements of an RSS root cursor.
pub uninterp spec fn rss_root_elems(it: readfeed::rss::RssIter) -> Seq<RssRootEv>;

/// The remaining child elements of an RSS channel cursor.
pub uninterp spec fn rss_channel_elems(it: readfeed::rss::ChannelIter) -> Seq<RssChannelEv>;

/// The remaining child elements of an RSS item cursor.
pub uninterp spec fn rss_item_elems(it: readfeed::rss::ChannelItemIter) -> Seq<RssItemEv>;

// ---------------------------------------------------------------------------
// Ghost images of the plain element values.
// ---------------------------------------------------------------------------

pub open spec fn atom_doc_ev(e: AtomDocElem<'_>) -> AtomDocEv {
    match e {
        AtomDocElem::Feed(f) => AtomDocEv::Feed(atom_feed_elems(f)),
        AtomDocElem::Other => AtomDocEv::Other,
    }
}

pub open spec fn atom_feed_ev(e: AtomFeedElem<'_>) -> AtomFeedEv {
    match e {
        AtomFeedElem::Title(t) => AtomFeedEv::Title(t@),
        AtomFeedElem::Subtitle(t) => AtomFeedEv::Subtitle(t@),
        AtomFeedElem::Link(l) => AtomFeedEv::Link(l@),
        AtomFeedElem::Entry(en) => AtomFeedEv::Entry(atom_entry_elems(en)),
        AtomFeedElem::Other => AtomFeedEv::Other,
    }
}

pub open spec fn atom_entry_ev(e: AtomEntryElem<'_>) -> AtomEntryEv {
    match e {
        AtomEntryElem::Content(t) => AtomEntryEv::Content(t@),
        AtomEntryElem::Id(t) => AtomEntryEv::Id(t@),
        AtomEntryElem::Summary(t) => AtomEntryEv::Summary(t@),
        AtomEntryElem::Title(t) => AtomEntryEv::Title(t@),
        AtomEntryElem::Updated(t) => AtomEntryEv::Updated(t@),
        AtomEntryElem::Published(t) => AtomEntryEv::Published(t@),
        AtomEntryElem::Link(l) => AtomEntryEv::Link(l@),
        AtomEntryElem::Source(s) => AtomEntryEv::Source(atom_source_elems(s)),
        AtomEntryElem::Other => AtomEntryEv::Other,
    }
}

pub open spec fn atom_source_ev(e: AtomSourceElem<'_>) -> AtomSourceEv {
    match e {
        AtomSourceElem::Link(l) => AtomSourceEv::Link(l@),
        AtomSourceElem::Other => AtomSourceEv::Other,
    }
}

pub open spec fn rss_doc_ev(e: RssDocElem<'_>) -> RssDocEv {
    match e {
        RssDocElem::Rss(r) => RssDocEv::Rss(rss_root_elems(r)),
        RssDocElem::Other => RssDocEv::Other,
    }
}

pub open spec fn rss_root_ev(e: RssRootElem<'_>) -> RssRootEv {
    match e {
        RssRootElem::Channel(c) => RssRootEv::Channel(rss_channel_elems(c)),
        RssRootElem::Other => RssRootEv::Other,
    }
}

pub open spec fn rss_channel_ev(e: RssChannelElem<'_>) -> RssChannelEv {
    match e {
        RssChannelElem::Title(t) => RssChannelEv::Title(t@),
        RssChannelElem::Description(t) => RssChannelEv::Description(t@),
        RssChannelElem::Link(t) => RssChannelEv::Link(t@),
        RssChannelElem::Item(i) => RssChannelEv::Item(rss_item_elems(i)),
        RssChannelElem::Other => RssChannelEv::Other,
    }
}

pub open spec fn rss_item_ev(e: RssItemElem<'_>) -> RssItemEv {
    match e {
        RssItemElem::Title(t) => RssItemEv::Title(t@),
        RssItemElem::Link(t) => RssItemEv::Link(t@),
        RssItemElem::Description(t) => RssItemEv::Description(t@),
        RssItemElem::Guid(t) => RssItemEv::Guid(t@),
        RssItemElem::PubDate(t) => RssItemEv::PubDate(t@),
        RssItemElem::Other => RssItemEv::Other,
    }
}

// ---------------------------------------------------------------------------
// Trusted wrappers over the tokenizer.
// ---------------------------------------------------------------------------

/// Relies on `readfeed::detect_type`: a bounded prefix sniff whose verdict is
/// a function of the input text alone.
#[verifier::external_body]
pub(crate) fn detect_kind(input: &str) -> (r: FeedKind)
    ensures
        r == detect_kind_of(input@),
{
    match readfeed::detect_type(input) {
        readfeed::Ty::Atom => FeedKind::Atom,
        readfeed::Ty::Rss => FeedKind::Rss,
        readfeed::Ty::Json => FeedKind::Json,
        readfeed::Ty::Unknown => FeedKind::Unknown,
        readfeed::Ty::XmlOrHtml => FeedKind::XmlOrHtml,
    }
}

/// Relies on the `href`, `rel` and `ty` accessors of `readfeed::atom::Link`:
/// each reads one attribute of the already-tokenized element.
#[verifier::external_body]
fn link_candidate<'a>(l: &readfeed::atom::Link<'a>) -> (r: LinkCandidate<'a>)
    ensures
        r@ == link_fields_of(*l),
{
    LinkCandidate {
        rel: l.rel().map(|v| v.as_str()),
        ty: l.ty().map(|v| v.as_str()),
        href: l.href().map(|v| v.as_str()),
    }
}

/// Relies on `AtomRawIter::new`: a fresh cursor over the whole text.
#[verifier::external_body]
pub(crate) fn atom_iter_new<'a>(input: &'a str) -> (it: AtomRawIter<'a>)
    ensures
        atom_doc_elems(it) == atom_docs_of(input@),
{
    AtomRawIter::new(input)
}

/// Relies on `readfeed::atom::Iter::next`: yields the remaining top-level
/// elements in document order, `None` exactly when none remain.
#[verifier::external_body]
pub(crate) fn atom_iter_next<'a>(it: &mut AtomRawIter<'a>) -> (r: Option<AtomDocElem<'a>>)
    ensures
        match r {
            None => atom_doc_elems(*old(it)).len() == 0 && atom_doc_elems(*final(it)).len() == 0,
            Some(e) => atom_doc_elems(*old(it)).len() > 0 && atom_doc_ev(e) == atom_doc_elems(
                *old(it),
            )[0] && atom_doc_elems(*final(it)) == atom_doc_elems(*old(it)).drop_first(),
        },
{
    it.next().map(|e| match e {
        readfeed::atom::Elem::Feed(f) => AtomDocElem::Feed(f),
        _ => AtomDocElem::Other,
    })
}

/// Relies on `readfeed::atom::FeedIter::next`: yields the feed container's
/// remaining child elements in document order, `None` exactly when none remain.
#[verifier::external_body]
pub(crate) fn atom_feed_next<'a>(it: &mut readfeed::atom::FeedIter<'a>) -> (r: Option<
    AtomFeedElem<'a>,
>)
    ensures
        match r {
            None => atom_feed_elems(*old(it)).len() == 0 && atom_feed_elems(*final(it)).len() == 0,
            Some(e) => atom_feed_elems(*old(it)).len() > 0 && atom_feed_ev(e) == atom_feed_elems(
                *old(it),
            )[0] && atom_feed_elems(*final(it)) == atom_feed_elems(*old(it)).drop_first(),
        },
{
    it.next().map(|e| match e {
        readfeed::atom::FeedElem::Title(t) => AtomFeedElem::Title(t.content()),
        readfeed::atom::FeedElem::Subtitle(t) => AtomFeedElem::Subtitle(t.content()),
        readfeed::atom::FeedElem::Link(l) => AtomFeedElem::Link(link_candidate(&l)),
        readfeed::atom::FeedElem::Entry(en) => AtomFeedElem::Entry(en),
        _ => AtomFeedElem::Other,
    })
}

/// Relies on `readfeed::atom::EntryIter::next`: yields the entry container's
/// remaining child elements in document order, `None` exactly when none remain.
#[verifier::external_body]
pub(crate) fn atom_entry_next<'a>(it: &mut readfeed::atom::EntryIter<'a>) -> (r: Option<
    AtomEntryElem<'a>,
>)
    ensures
        match r {
            None => atom_entry_elems(*old(it)).len() == 0 && atom_entry_elems(*final(it)).len()
                == 0,
            Some(e) => atom_entry_elems(*old(it)).len() > 0 && atom_entry_ev(e)
                == atom_entry_elems(*old(it))[0] && atom_entry_elems(*final(it))
                == atom_entry_elems(*old(it)).drop_first(),
        },
{
    it.next().map(|e| match e {
        readfeed::atom::EntryElem::Content(t) => AtomEntryElem::Content(t.content()),
        readfeed::atom::EntryElem::Id(t) => AtomEntryElem::Id(t.content()),
        readfeed::atom::EntryElem::Summary(t) => AtomEntryElem::Summary(t.content()),
        readfeed::atom::EntryElem::Title(t) => AtomEntryElem::Title(t.content()),
        readfeed::atom::EntryElem::Updated(t) => AtomEntryElem::Updated(t.content()),
        readfeed::atom::EntryElem::Published(t) => AtomEntryElem::Published(t.content()),
        readfeed::atom::EntryElem::Link(l) => AtomEntryElem::Link(link_candidate(&l)),
        readfeed::atom::EntryElem::Source(s) => AtomEntryElem::Source(s),
        _ => AtomEntryElem::Other,
    })
}

/// Relies on `readfeed::atom::SourceIter::next`: yields the source container's
/// remaining child elements in document order, `None` exactly when none remain.
#[verifier::external_body]
pub(crate) fn atom_source_next<'a>(it: &mut readfeed::atom::SourceIter<'a>) -> (r: Option<
    AtomSourceElem<'a>,
>)
    ensures
        match r {
            None => atom_source_elems(*old(it)).len() == 0 && atom_source_elems(*final(it)).len()
                == 0,
            Some(e) => atom_source_elems(*old(it)).len() > 0 && atom_source_ev(e)
                == atom_source_elems(*old(it))[0] && atom_source_elems(*final(it))
                == atom_source_elems(*old(it)).drop_first(),
        },
{
    it.next().map(|e| match e {
        readfeed::atom::SourceElem::Link(l) => AtomSourceElem::Link(link_candidate(&l)),
        _ => AtomSourceElem::Other,
    })
}

/// Relies on `RssRawIter::new`: a fresh cursor over the whole text.
#[verifier::external_body]
pub(crate) fn rss_iter_new<'a>(input: &'a str) -> (it: RssRawIter<'a>)
    ensures
        rss_doc_elems(it) == rss_docs_of(input@),
{
    RssRawIter::new(input)
}

/// Relies on `readfeed::rss::Iter::next`: yields the remaining top-level
/// elements in document order, `None` exactly when none remain.
#[verifier::external_body]
pub(crate) fn rss_iter_next<'a>(it: &mut RssRawIter<'a>) -> (r: Option<RssDocElem<'a>>)
    ensures
        match r {
            None => rss_doc_elems(*old(it)).len() == 0 && rss_doc_elems(*final(it)).len() == 0,
            Some(e) => rss_doc_elems(*old(it)).len() > 0 && rss_doc_ev(e) == rss_doc_elems(
                *old(it),
            )[0] && rss_doc_elems(*final(it)) == rss_doc_elems(*old(it)).drop_first(),
        },
{
    it.next().map(|e| match e {
        readfeed::rss::Elem::Rss(r) => RssDocElem::Rss(r),
        _ => RssDocElem::Other,
    })
}

/// Relies on `readfeed::rss::RssIter::next`: yields the root's remaining
/// child elements in document order, `None` exactly when none remain.
#[verifier::external_body]
pub(crate) fn rss_root_next<'a>(it: &mut readfeed::rss::RssIter<'a>) -> (r: Option<RssRootElem<'a>>)
    ensures
        match r {
            None => rss_root_elems(*old(it)).len() == 0 && rss_root_elems(*final(it)).len() == 0,
            Some(e) => rss_root_elems(*old(it)).len() > 0 && rss_root_ev(e) == rss_root_elems(
                *old(it),
            )[0] && rss_root_elems(*final(it)) == rss_root_elems(*old(it)).drop_first(),
        },
{
    it.next().map(|e| match e {
        readfeed::rss::RssElem::Channel(c) => RssRootElem::Channel(c),
        _ => RssRootElem::Other,
    })
}

/// Relies on `readfeed::rss::ChannelIter::next`: yields the channel's
/// remaining child elements in document order, `None` exactly when none remain.
#[verifier::external_body]
pub(crate) fn rss_channel_next<'a>(it: &mut readfeed::rss::ChannelIter<'a>) -> (r: Option<
    RssChannelElem<'a>,
>)
    ensures
        match r {
            None => rss_channel_elems(*old(it)).len() == 0 && rss_channel_elems(*final(it)).len()
                == 0,
            Some(e) => rss_channel_elems(*old(it)).len() > 0 && rss_channel_ev(e)
                == rss_channel_elems(*old(it))[0] && rss_channel_elems(*final(it))
                == rss_channel_elems(*old(it)).drop_first(),
        },
{
    it.next().map(|e| match e {
        readfeed::rss::ChannelElem::Title(t) => RssChannelElem::Title(t.content()),
        readfeed::rss::ChannelElem::Description(t) => RssChannelElem::Description(t.content()),
        readfeed::rss::ChannelElem::Link(t) => RssChannelElem::Link(t.content()),
        readfeed::rss::ChannelElem::Item(i) => RssChannelElem::Item(i),
        _ => RssChannelElem::Other,
    })
}

/// Relies on `readfeed::rss::ChannelItemIter::next`: yields the item's
/// remaining child elements in document order, `None` exactly when none remain.
#[verifier::external_body]
pub(crate) fn rss_item_next<'a>(it: &mut readfeed::rss::ChannelItemIter<'a>) -> (r: Option<
    RssItemElem<'a>,
>)
    ensures
        match r {
            None => rss_item_elems(*old(it)).len() == 0 && rss_item_elems(*final(it)).len() == 0,
            Some(e) => rss_item_elems(*old(it)).len() > 0 && rss_item_ev(e) == rss_item_elems(
                *old(it),
            )[0] && rss_item_elems(*final(it)) == rss_item_elems(*old(it)).drop_first(),
        },
{
    it.next().map(|e| match e {
        readfeed::rss::ItemElem::Title(t) => RssItemElem::Title(t.content()),
        readfeed::rss::ItemElem::Link(t) => RssItemElem::Link(t.content()),
        readfeed::rss::ItemElem::Description(t) => RssItemElem::Description(t.content()),
        readfeed::rss::ItemElem::Guid(t) => RssItemElem::Guid(t.content()),
        readfeed::rss::ItemElem::PubDate(t) => RssItemElem::PubDate(t.content()),
        _ => RssItemElem::Other,
    })
}

} // verus!
