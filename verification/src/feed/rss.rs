use vstd::prelude::*;

use crate::feed::times::{convert_datetime, spec_convert_datetime, Timestamp};
use crate::feed::tok::{
    rss_channel_elems, rss_channel_next, rss_doc_elems, rss_docs_of, rss_item_elems, rss_item_next,
    rss_iter_new, rss_iter_next, rss_root_elems, rss_root_next, RssChannelElem, RssChannelEv,
    RssDocElem, RssDocEv, RssItemElem, RssItemEv, RssRootElem, RssRootEv,
};
use crate::feed::{keep_first, opt_text, Feed, FeedModel, Item, ItemModel, Iter};

verus! {

// ---------------------------------------------------------------------------
// Locating the first channel.
// ---------------------------------------------------------------------------

/// The contents of the first channel container among a root's elements.
pub open spec fn first_channel_in(evs: Seq<RssRootEv>) -> Option<Seq<RssChannelEv>>
    decreases evs.len(),
{
    if evs.len() == 0 {
        None
    } else {
        match evs[0] {
            RssRootEv::Channel(ch) => Some(ch),
            RssRootEv::Other => first_channel_in(evs.drop_first()),
        }
    }
}

/// The contents of the first channel container of the document: roots are
/// scanned in document order, and within each root its children.
pub open spec fn first_channel(docs: Seq<RssDocEv>) -> Option<Seq<RssChannelEv>>
    decreases docs.len(),
{
    if docs.len() == 0 {
        None
    } else {
        match docs[0] {
            RssDocEv::Rss(rs) => match first_channel_in(rs) {
                Some(ch) => Some(ch),
                None => first_channel(docs.drop_first()),
            },
            RssDocEv::Other => first_channel(docs.drop_first()),
        }
    }
}

// ---------------------------------------------------------------------------
// The fold over a channel's own elements.
// ---------------------------------------------------------------------------

/// The running state while folding channel-level elements.
pub ghost struct RssFeedAcc {
    pub title: Option<Seq<char>>,
    pub description: Option<Seq<char>>,
    pub home: Option<Seq<char>>,
}

pub open spec fn rss_feed_acc0() -> RssFeedAcc {
    RssFeedAcc { title: None, description: None, home: None }
}

/// One channel-level element: all three scalars are first-wins; a channel
/// link is plain text content, no disambiguation applies.
pub open spec fn rss_feed_step(acc: RssFeedAcc, ev: RssChannelEv) -> RssFeedAcc {
    match ev {
        RssChannelEv::Title(t) => RssFeedAcc {
            title: keep_first(acc.title, t),
            description: acc.description,
            home: acc.home,
        },
        RssChannelEv::Description(t) => RssFeedAcc {
            title: acc.title,
            description: keep_first(acc.description, t),
            home: acc.home,
        },
        RssChannelEv::Link(t) => RssFeedAcc {
            title: acc.title,
            description: acc.description,
            home: keep_first(acc.home, t),
        },
        RssChannelEv::Item(_) => acc,
        RssChannelEv::Other => acc,
    }
}

pub open spec fn rss_feed_fold(acc: RssFeedAcc, evs: Seq<RssChannelEv>) -> RssFeedAcc
    decreases evs.len(),
{
    if evs.len() == 0 {
        acc
    } else {
        rss_feed_fold(rss_feed_step(acc, evs[0]), evs.drop_first())
    }
}

/// The feed record that one channel container folds to.
pub open spec fn rss_feed_of(evs: Seq<RssChannelEv>) -> FeedModel {
    let acc = rss_feed_fold(rss_feed_acc0(), evs);
    FeedModel { title: acc.title, description: acc.description, home_page_url: acc.home }
}

/// What parsing a text as an RSS feed yields: the first channel's fold, or
/// nothing when the document has no rss root with a channel.
pub open spec fn spec_parse_feed_rss(s: Seq<char>) -> Option<FeedModel> {
    match first_channel(rss_docs_of(s)) {
        Some(evs) => Some(rss_feed_of(evs)),
        None => None,
    }
}

// ---------------------------------------------------------------------------
// The fold over one item's elements.
// ---------------------------------------------------------------------------

/// The running state while folding one item's elements.
pub ghost struct RssItemAcc {
    pub id: Option<Seq<char>>,
    pub title: Option<Seq<char>>,
    pub summary: Option<Seq<char>>,
    pub url: Option<Seq<char>>,
    pub published: Option<Timestamp>,
}

pub open spec fn rss_item_acc0() -> RssItemAcc {
    RssItemAcc { id: None, title: None, summary: None, url: None, published: None }
}

/// One item element: every field is first-successful-wins; an RSS item
/// carries at most one meaningful link, so no disambiguation applies.
pub open spec fn rss_item_step(acc: RssItemAcc, ev: RssItemEv) -> RssItemAcc {
    match ev {
        RssItemEv::Title(t) => RssItemAcc { title: keep_first(acc.title, t), ..acc },
        RssItemEv::Link(t) => RssItemAcc { url: keep_first(acc.url, t), ..acc },
        RssItemEv::Description(t) => RssItemAcc { summary: keep_first(acc.summary, t), ..acc },
        RssItemEv::Guid(t) => RssItemAcc { id: keep_first(acc.id, t), ..acc },
        RssItemEv::PubDate(t) => RssItemAcc {
            published: if acc.published is Some {
                acc.published
            } else {
                spec_convert_datetime(t)
            },
            ..acc
        },
        RssItemEv::Other => acc,
    }
}

pub open spec fn rss_item_fold(acc: RssItemAcc, evs: Seq<RssItemEv>) -> RssItemAcc
    decreases evs.len(),
{
    if evs.len() == 0 {
        acc
    } else {
        rss_item_fold(rss_item_step(acc, evs[0]), evs.drop_first())
    }
}

/// The canonical item that one item container folds to; `content`,
/// `external_url` and `modified_at` are never populated for RSS items.
pub open spec fn rss_item_of(evs: Seq<RssItemEv>) -> ItemModel {
    let acc = rss_item_fold(rss_item_acc0(), evs);
    ItemModel {
        id: acc.id,
        title: acc.title,
        content: None,
        summary: acc.summary,
        url: acc.url,
        external_url: None,
        published_at: acc.published,
        modified_at: None,
    }
}

/// All items of a channel container, in document order.
pub open spec fn rss_items_of(evs: Seq<RssChannelEv>) -> Seq<ItemModel>
    decreases evs.len(),
{
    if evs.len() == 0 {
        Seq::empty()
    } else {
        match evs[0] {
            RssChannelEv::Item(ies) => seq![rss_item_of(ies)] + rss_items_of(evs.drop_first()),
            _ => rss_items_of(evs.drop_first()),
        }
    }
}

// ---------------------------------------------------------------------------
// The executable adapter.
// ---------------------------------------------------------------------------

/// Folds a channel container's elements into one `Feed` record.
#[verifier::loop_isolation(false)]
fn fold_channel<'a>(channel_it: readfeed::rss::ChannelIter<'a>) -> (f: Feed<'a>)
    ensures
        f@ == rss_feed_of(rss_channel_elems(channel_it)),
{
    let ghost evs0 = rss_channel_elems(channel_it);
    let mut it = channel_it;
    let mut title: Option<&'a str> = None;
    let mut description: Option<&'a str> = None;
    let mut home: Option<&'a str> = None;
    loop
        invariant
            rss_feed_fold(
                RssFeedAcc {
                    title: opt_text(title),
                    description: opt_text(description),
                    home: opt_text(home),
                },
                rss_channel_elems(it),
            ) == rss_feed_fold(rss_feed_acc0(), evs0),
        decreases rss_channel_elems(it).len(),
    {
        match rss_channel_next(&mut it) {
            None => {
                return Feed { title, description, home_page_url: home };
            },
            Some(RssChannelElem::Title(t)) => {
                if title.is_none() {
                    title = Some(t);
                }
            },
            Some(RssChannelElem::Description(t)) => {
                if description.is_none() {
                    description = Some(t);
                }
            },
            Some(RssChannelElem::Link(t)) => {
                if home.is_none() {
                    home = Some(t);
                }
            },
            Some(RssChannelElem::Item(_)) => {},
            Some(RssChannelElem::Other) => {},
        }
    }
}

/// Folds one item container into one canonical `Item`.
#[verifier::loop_isolation(false)]
fn fold_item<'a>(item_it: readfeed::rss::ChannelItemIter<'a>) -> (item: Item<'a>)
    ensures
        item@ == rss_item_of(rss_item_elems(item_it)),
{
    let ghost evs0 = rss_item_elems(item_it);
    let mut it = item_it;
    let mut id: Option<&'a str> = None;
    let mut title: Option<&'a str> = None;
    let mut summary: Option<&'a str> = None;
    let mut url: Option<&'a str> = None;
    let mut published: Option<Timestamp> = None;
    loop
        invariant
            rss_item_fold(
                RssItemAcc {
                    id: opt_text(id),
                    title: opt_text(title),
                    summary: opt_text(summary),
                    url: opt_text(url),
                    published: published,
                },
                rss_item_elems(it),
            ) == rss_item_fold(rss_item_acc0(), evs0),
        decreases rss_item_elems(it).len(),
    {
        match rss_item_next(&mut it) {
            None => {
                return Item {
                    id,
                    title,
                    content: None,
                    summary,
                    url,
                    external_url: None,
                    published_at: published,
                    modified_at: None,
                };
            },
            Some(RssItemElem::Title(t)) => {
                if title.is_none() {
                    title = Some(t);
                }
            },
            Some(RssItemElem::Link(t)) => {
                if url.is_none() {
                    url = Some(t);
                }
            },
            Some(RssItemElem::Description(t)) => {
                if summary.is_none() {
                    summary = Some(t);
                }
            },
            Some(RssItemElem::Guid(t)) => {
                if id.is_none() {
                    id = Some(t);
                }
            },
            Some(RssItemElem::PubDate(t)) => {
                if published.is_none() {
                    published = convert_datetime(t);
                }
            },
            Some(RssItemElem::Other) => {},
        }
    }
}

/// Parses an RSS-family document's channel-level metadata: the first
/// channel's fold, or nothing when no channel exists.
#[verifier::loop_isolation(false)]
pub fn parse_feed(input: &str) -> (r: Option<Feed<'_>>)
    ensures
        r matches Some(f) ==> spec_parse_feed_rss(input@) == Some(f@),
        r is None ==> spec_parse_feed_rss(input@) is None,
{
    let mut it = rss_iter_new(input);
    loop
        invariant
            first_channel(rss_doc_elems(it)) == first_channel(rss_docs_of(input@)),
        decreases rss_doc_elems(it).len(),
    {
        match rss_iter_next(&mut it) {
            None => {
                return None;
            },
            Some(RssDocElem::Rss(rs)) => {
                let mut rs_it = rs;
                loop
                    invariant
                        (match first_channel_in(rss_root_elems(rs_it)) {
                            Some(ch) => first_channel(rss_docs_of(input@)) == Some(ch),
                            None => first_channel(rss_docs_of(input@)) == first_channel(
                                rss_doc_elems(it),
                            ),
                        }),
                    decreases rss_root_elems(rs_it).len(),
                {
                    match rss_root_next(&mut rs_it) {
                        None => {
                            break ;
                        },
                        Some(RssRootElem::Channel(ch)) => {
                            return Some(fold_channel(ch));
                        },
                        Some(RssRootElem::Other) => {},
                    }
                }
            },
            Some(RssDocElem::Other) => {},
        }
    }
}

impl<'a> Iter<readfeed::rss::ChannelIter<'a>> {
    /// The items this cursor has yet to yield, in document order.
    pub open spec fn items_left(self) -> Seq<ItemModel> {
        rss_items_of(rss_channel_elems(self.inner()))
    }

    /// Opens the item sequence of an RSS-family document: positions a cursor
    /// inside the first channel container, or yields nothing when no channel
    /// exists.
    #[verifier::loop_isolation(false)]
    pub fn with_rss(input: &'a str) -> (r: Option<Self>)
        ensures
            r matches Some(i) ==> first_channel(rss_docs_of(input@)) == Some(
                rss_channel_elems(i.inner()),
            ),
            r is None ==> first_channel(rss_docs_of(input@)) is None,
    {
        let mut it = rss_iter_new(input);
        loop
            invariant
                first_channel(rss_doc_elems(it)) == first_channel(rss_docs_of(input@)),
            decreases rss_doc_elems(it).len(),
        {
            match rss_iter_next(&mut it) {
                None => {
                    return None;
                },
                Some(RssDocElem::Rss(rs)) => {
                    let mut rs_it = rs;
                    loop
                        invariant
                            (match first_channel_in(rss_root_elems(rs_it)) {
                                Some(ch) => first_channel(rss_docs_of(input@)) == Some(ch),
                                None => first_channel(rss_docs_of(input@)) == first_channel(
                                    rss_doc_elems(it),
                                ),
                            }),
                        decreases rss_root_elems(rs_it).len(),
                    {
                        match rss_root_next(&mut rs_it) {
                            None => {
                                break ;
                            },
                            Some(RssRootElem::Channel(ch)) => {
                                return Some(Iter::from_cursor(ch));
                            },
                            Some(RssRootElem::Other) => {},
                        }
                    }
                },
                Some(RssDocElem::Other) => {},
            }
        }
    }

    /// Scans forward for the next item container and folds it into one
    /// `Item`; `None` once the element stream is exhausted.
    #[verifier::loop_isolation(false)]
    pub fn next(&mut self) -> (r: Option<Item<'a>>)
        ensures
            match r {
                None => old(self).items_left().len() == 0 && final(self).items_left().len() == 0,
                Some(item) => old(self).items_left().len() > 0 && item@ == old(
                    self,
                ).items_left()[0] && final(self).items_left() == old(self).items_left().drop_first(),
            },
    {
        loop
            invariant
                rss_items_of(rss_channel_elems(self.inner())) == old(self).items_left(),
            decreases rss_channel_elems(self.inner()).len(),
        {
            let ghost before = rss_channel_elems(self.inner());
            match rss_channel_next(&mut self.feed) {
                None => {
                    return None;
                },
                Some(RssChannelElem::Item(ies)) => {
                    proof {
                        assert(rss_items_of(before) == seq![rss_item_of(rss_item_elems(ies))]
                            + rss_items_of(rss_channel_elems(self.inner())));
                    }
                    return Some(fold_item(ies));
                },
                Some(_) => {},
            }
        }
    }
}

// ---------------------------------------------------------------------------
// Laws.
// ---------------------------------------------------------------------------

/// Counts the item containers among a channel's elements.
pub open spec fn item_count(evs: Seq<RssChannelEv>) -> nat
    decreases evs.len(),
{
    if evs.len() == 0 {
        0
    } else {
        (if evs[0] is Item {
            1nat
        } else {
            0nat
        }) + item_count(evs.drop_first())
    }
}

/// A channel with N item containers yields exactly N items.
pub proof fn lemma_rss_items_count(evs: Seq<RssChannelEv>)
    ensures
        rss_items_of(evs).len() == item_count(evs),
    decreases evs.len(),
{
    if evs.len() == 0 {
    } else {
        lemma_rss_items_count(evs.drop_first());
    }
}

/// An RSS item never populates `external_url`, `content` or `modified_at`.
pub proof fn lemma_rss_item_never_external(evs: Seq<RssItemEv>)
    ensures
        rss_item_of(evs).external_url is None,
        rss_item_of(evs).content is None,
        rss_item_of(evs).modified_at is None,
{
}

proof fn lemma_rss_feed_fold_keeps_home(acc: RssFeedAcc, evs: Seq<RssChannelEv>)
    requires
        forall|i: int| 0 <= i < evs.len() ==> !(evs[i] is Link),
    ensures
        rss_feed_fold(acc, evs).home == acc.home,
    decreases evs.len(),
{
    if evs.len() == 0 {
    } else {
        assert forall|i: int| 0 <= i < evs.drop_first().len() implies !(evs.drop_first()[i]
            is Link) by {
            assert(evs.drop_first()[i] == evs[i + 1]);
        }
        lemma_rss_feed_fold_keeps_home(rss_feed_step(acc, evs[0]), evs.drop_first());
    }
}

/// A channel without link elements folds to a feed whose home page address
/// is unset.
pub proof fn lemma_rss_feed_no_links(evs: Seq<RssChannelEv>)
    requires
        forall|i: int| 0 <= i < evs.len() ==> !(evs[i] is Link),
    ensures
        rss_feed_of(evs).home_page_url is None,
{
    lemma_rss_feed_fold_keeps_home(rss_feed_acc0(), evs);
}

proof fn lemma_rss_item_fold_keeps_url(acc: RssItemAcc, evs: Seq<RssItemEv>)
    requires
        forall|i: int| 0 <= i < evs.len() ==> !(evs[i] is Link),
    ensures
        rss_item_fold(acc, evs).url == acc.url,
    decreases evs.len(),
{
    if evs.len() == 0 {
    } else {
        assert forall|i: int| 0 <= i < evs.drop_first().len() implies !(evs.drop_first()[i]
            is Link) by {
            assert(evs.drop_first()[i] == evs[i + 1]);
        }
        lemma_rss_item_fold_keeps_url(rss_item_step(acc, evs[0]), evs.drop_first());
    }
}

/// An item without link elements folds to an item whose url is unset.
pub proof fn lemma_rss_item_no_links(evs: Seq<RssItemEv>)
    requires
        forall|i: int| 0 <= i < evs.len() ==> !(evs[i] is Link),
    ensures
        rss_item_of(evs).url is None,
{
    lemma_rss_item_fold_keeps_url(rss_item_acc0(), evs);
}

} // verus!
