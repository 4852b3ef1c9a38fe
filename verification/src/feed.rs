use vstd::prelude::*;

pub mod atom;
pub mod links;
pub mod rss;
pub mod times;
pub mod tok;

use crate::feed::times::Timestamp;
use crate::feed::tok::{detect_kind, detect_kind_of, FeedKind};

verus! {

/// Lifts an optional borrowed text to its view.
pub open spec fn opt_text(o: Option<&str>) -> Option<Seq<char>> {
    match o {
        Some(s) => Some(s@),
        None => None,
    }
}

/// Canonical channel-level metadata, borrowed from the source buffer.
#[derive(Debug, Clone, Copy, Default, PartialEq, Eq, Hash)]
pub struct Feed<'a> {
    pub title: Option<&'a str>,
    pub description: Option<&'a str>,
    pub home_page_url: Option<&'a str>,
}

/// The mathematical value of a `Feed`: each field as an optional
/// character sequence.
pub ghost struct FeedModel {
    pub title: Option<Seq<char>>,
    pub description: Option<Seq<char>>,
    pub home_page_url: Option<Seq<char>>,
}

impl<'a> View for Feed<'a> {
    type V = FeedModel;

    open spec fn view(&self) -> FeedModel {
        FeedModel {
            title: opt_text(self.title),
            description: opt_text(self.description),
            home_page_url: opt_text(self.home_page_url),
        }
    }
}

/// One canonical entry, borrowed from the source buffer; timestamps are
/// normalized absolute instants.
#[derive(Debug, Clone, Copy, Default, PartialEq, Eq, Hash)]
pub struct Item<'a> {
    pub id: Option<&'a str>,
    pub title: Option<&'a str>,
    pub content: Option<&'a str>,
    pub summary: Option<&'a str>,
    pub url: Option<&'a str>,
    pub external_url: Option<&'a str>,
    pub published_at: Option<Timestamp>,
    pub modified_at: Option<Timestamp>,
}

/// The mathematical value of an `Item`.
pub ghost struct ItemModel {
    pub id: Option<Seq<char>>,
    pub title: Option<Seq<char>>,
    pub content: Option<Seq<char>>,
    pub summary: Option<Seq<char>>,
    pub url: Option<Seq<char>>,
    pub external_url: Option<Seq<char>>,
    pub published_at: Option<Timestamp>,
    pub modified_at: Option<Timestamp>,
}

impl<'a> View for Item<'a> {
    type V = ItemModel;

    open spec fn view(&self) -> ItemModel {
        ItemModel {
            id: opt_text(self.id),
            title: opt_text(self.title),
            content: opt_text(self.content),
            summary: opt_text(self.summary),
            url: opt_text(self.url),
            external_url: opt_text(self.external_url),
            published_at: self.published_at,
            modified_at: self.modified_at,
        }
    }
}

/// First-successful-value-wins: a set field is never overwritten.
pub open spec fn keep_first(cur: Option<Seq<char>>, incoming: Seq<char>) -> Option<Seq<char>> {
    if cur is Some {
        cur
    } else {
        Some(incoming)
    }
}

/// A cursor over one schema's entry stream; each pull folds the next entry
/// into one canonical `Item`.
#[derive(Debug)]
pub struct Iter<T> {
    feed: T,
}

impl<T> Iter<T> {
    /// The schema-specific cursor state this sequence owns.
    pub closed spec fn inner(self) -> T {
        self.feed
    }

    pub(crate) fn from_cursor(feed: T) -> (r: Self)
        ensures
            r.inner() == feed,
    {
        Iter { feed }
    }
}

/// The schema-specific cursor behind a unified item sequence.
#[derive(Debug)]
pub enum IterFeedTy<'a> {
    Atom(Iter<readfeed::atom::FeedIter<'a>>),
    Rss(Iter<readfeed::rss::ChannelIter<'a>>),
}

/// What parsing any text yields: the detected family's adapter, or nothing
/// for the unsupported and undetermined classifications.
pub open spec fn spec_parse_feed(s: Seq<char>) -> Option<FeedModel> {
    match detect_kind_of(s) {
        FeedKind::Atom => atom::spec_parse_feed_atom(s),
        FeedKind::Rss => rss::spec_parse_feed_rss(s),
        _ => None,
    }
}

/// The item sequence any text opens to: the detected family's items in
/// document order, or nothing for the unsupported and undetermined
/// classifications or when no feed or channel container exists.
pub open spec fn spec_open_items(s: Seq<char>) -> Option<Seq<ItemModel>> {
    match detect_kind_of(s) {
        FeedKind::Atom => match atom::first_feed(tok::atom_docs_of(s)) {
            Some(fe) => Some(atom::atom_items_of(fe)),
            None => None,
        },
        FeedKind::Rss => match rss::first_channel(tok::rss_docs_of(s)) {
            Some(ch) => Some(rss::rss_items_of(ch)),
            None => None,
        },
        _ => None,
    }
}

/// Detects the document's family and parses its feed-level metadata;
/// `None` when the format is unsupported or no feed or channel container
/// is found.
pub fn parse_feed(input: &str) -> (r: Option<Feed<'_>>)
    ensures
        r matches Some(f) ==> spec_parse_feed(input@) == Some(f@),
        r is None ==> spec_parse_feed(input@) is None,
{
    match detect_kind(input) {
        FeedKind::Atom => atom::parse_feed(input),
        FeedKind::Rss => rss::parse_feed(input),
        _ => None,
    }
}

/// Unsupported or undetermined formats yield no result at either entry
/// point: never a partial feed, never a partial item sequence.
pub proof fn lemma_unsupported_yields_nothing(s: Seq<char>)
    requires
        detect_kind_of(s) != FeedKind::Atom,
        detect_kind_of(s) != FeedKind::Rss,
    ensures
        spec_parse_feed(s) is None,
        spec_open_items(s) is None,
{
}

impl<'a> Iter<IterFeedTy<'a>> {
    /// The items this sequence has yet to yield, in document order.
    pub open spec fn items_left(self) -> Seq<ItemModel> {
        match self.inner() {
            IterFeedTy::Atom(i) => i.items_left(),
            IterFeedTy::Rss(i) => i.items_left(),
        }
    }

    /// Detects the document's family and opens its item sequence; `None`
    /// when the format is unsupported or no feed or channel container is
    /// found.
    pub fn with_str(input: &'a str) -> (r: Option<Self>)
        ensures
            r matches Some(i) ==> spec_open_items(input@) == Some(i.items_left()),
            r is None ==> spec_open_items(input@) is None,
    {
        let feed = match detect_kind(input) {
            FeedKind::Atom => match Iter::with_atom(input) {
                Some(i) => IterFeedTy::Atom(i),
                None => {
                    return None;
                },
            },
            FeedKind::Rss => match Iter::with_rss(input) {
                Some(i) => IterFeedTy::Rss(i),
                None => {
                    return None;
                },
            },
            _ => {
                return None;
            },
        };
        Some(Iter::from_cursor(feed))
    }

    /// Pulls the next canonical item, delegating to the active schema's
    /// cursor; `None` once the document is exhausted.
    pub fn next(&mut self) -> (r: Option<Item<'a>>)
        ensures
            match r {
                None => old(self).items_left().len() == 0 && final(self).items_left().len() == 0,
                Some(item) => old(self).items_left().len() > 0 && item@ == old(
                    self,
                ).items_left()[0] && final(self).items_left() == old(self).items_left().drop_first(),
            },
    {
        match &mut self.feed {
            IterFeedTy::Atom(i) => i.next(),
            IterFeedTy::Rss(i) => i.next(),
        }
    }
}

} // verus!
