use vstd::prelude::*;

use crate::feed::links::{
    capture_external_link, capture_internal_link, fold_external, fold_internal, href_of, opt_link,
    LinkCandidate, LinkModel,
};
use crate::feed::times::{convert_datetime, spec_convert_datetime, Timestamp};
use crate::feed::tok::{
    atom_docs_of, atom_doc_elems, atom_entry_elems, atom_feed_elems, atom_iter_new, atom_iter_next,
    atom_entry_next, atom_feed_next, atom_source_elems, atom_source_next, AtomDocElem, AtomDocEv,
    AtomEntryElem, AtomEntryEv, AtomFeedElem, AtomFeedEv, AtomSourceElem, AtomSourceEv,
};
use crate::feed::{keep_first, opt_text, Feed, FeedModel, Item, ItemModel, Iter};

verus! {

// ---------------------------------------------------------------------------
// The fold over a feed container's own elements.
// ---------------------------------------------------------------------------

/// The contents of the first feed container among the top-level elements.
pub open spec fn first_feed(docs: Seq<AtomDocEv>) -> Option<Seq<AtomFeedEv>>
    decreases docs.len(),
{
    if docs.len() == 0 {
        None
    } else {
        match docs[0] {
            AtomDocEv::Feed(fe) => Some(fe),
            AtomDocEv::Other => first_feed(docs.drop_first()),
        }
    }
}

/// The running state while folding feed-level elements.
pub ghost struct AtomFeedAcc {
    pub title: Option<Seq<char>>,
    pub description: Option<Seq<char>>,
    pub home: Option<LinkModel>,
}

pub open spec fn atom_feed_acc0() -> AtomFeedAcc {
    AtomFeedAcc { title: None, description: None, home: None }
}

/// One feed-level element: scalars are first-wins; every link folds through
/// the internal-link table; entries are skipped here.
pub open spec fn atom_feed_step(acc: AtomFeedAcc, ev: AtomFeedEv) -> AtomFeedAcc {
    match ev {
        AtomFeedEv::Title(t) => AtomFeedAcc {
            title: keep_first(acc.title, t),
            description: acc.description,
            home: acc.home,
        },
        AtomFeedEv::Subtitle(t) => AtomFeedAcc {
            title: acc.title,
            description: keep_first(acc.description, t),
            home: acc.home,
        },
        AtomFeedEv::Link(l) => AtomFeedAcc {
            title: acc.title,
            description: acc.description,
            home: Some(fold_internal(acc.home, l)),
        },
        AtomFeedEv::Entry(_) => acc,
        AtomFeedEv::Other => acc,
    }
}

pub open spec fn atom_feed_fold(acc: AtomFeedAcc, evs: Seq<AtomFeedEv>) -> AtomFeedAcc
    decreases evs.len(),
{
    if evs.len() == 0 {
        acc
    } else {
        atom_feed_fold(atom_feed_step(acc, evs[0]), evs.drop_first())
    }
}

/// The feed record that one feed container folds to.
pub open spec fn atom_feed_of(evs: Seq<AtomFeedEv>) -> FeedModel {
    let acc = atom_feed_fold(atom_feed_acc0(), evs);
    FeedModel { title: acc.title, description: acc.description, home_page_url: href_of(acc.home) }
}

/// What parsing a text as an Atom feed yields: the first feed container's
/// fold, or nothing when the document has no feed container.
pub open spec fn spec_parse_feed_atom(s: Seq<char>) -> Option<FeedModel> {
    match first_feed(atom_docs_of(s)) {
        Some(evs) => Some(atom_feed_of(evs)),
        None => None,
    }
}

// ---------------------------------------------------------------------------
// The fold over one entry's elements.
// ---------------------------------------------------------------------------

/// The running state while folding one entry's elements.
pub ghost struct AtomEntryAcc {
    pub id: Option<Seq<char>>,
    pub title: Option<Seq<char>>,
    pub content: Option<Seq<char>>,
    pub summary: Option<Seq<char>>,
    pub published: Option<Timestamp>,
    pub modified: Option<Timestamp>,
    pub internal: Option<LinkModel>,
    pub external: Option<LinkModel>,
}

pub open spec fn atom_entry_acc0() -> AtomEntryAcc {
    AtomEntryAcc {
        id: None,
        title: None,
        content: None,
        summary: None,
        published: None,
        modified: None,
        internal: None,
        external: None,
    }
}

/// Links nested in an entry's source container compete only for the
/// external-link slot, continuing the entry's own running accumulator.
pub open spec fn source_links_fold(ext: Option<LinkModel>, evs: Seq<AtomSourceEv>) -> Option<
    LinkModel,
>
    decreases evs.len(),
{
    if evs.len() == 0 {
        ext
    } else {
        match evs[0] {
            AtomSourceEv::Link(l) => source_links_fold(Some(fold_external(ext, l)), evs.drop_first()),
            AtomSourceEv::Other => source_links_fold(ext, evs.drop_first()),
        }
    }
}

/// One entry element: scalars and timestamps are first-successful-wins;
/// every link folds through both tables; a source container folds its links
/// into the external slot only.
pub open spec fn atom_entry_step(acc: AtomEntryAcc, ev: AtomEntryEv) -> AtomEntryAcc {
    match ev {
        AtomEntryEv::Content(t) => AtomEntryAcc { content: keep_first(acc.content, t), ..acc },
        AtomEntryEv::Id(t) => AtomEntryAcc { id: keep_first(acc.id, t), ..acc },
        AtomEntryEv::Summary(t) => AtomEntryAcc { summary: keep_first(acc.summary, t), ..acc },
        AtomEntryEv::Title(t) => AtomEntryAcc { title: keep_first(acc.title, t), ..acc },
        AtomEntryEv::Updated(t) => AtomEntryAcc {
            modified: if acc.modified is Some {
                acc.modified
            } else {
                spec_convert_datetime(t)
            },
            ..acc
        },
        AtomEntryEv::Published(t) => AtomEntryAcc {
            published: if acc.published is Some {
                acc.published
            } else {
                spec_convert_datetime(t)
            },
            ..acc
        },
        AtomEntryEv::Link(l) => AtomEntryAcc {
            internal: Some(fold_internal(acc.internal, l)),
            external: Some(fold_external(acc.external, l)),
            ..acc
        },
        AtomEntryEv::Source(evs) => AtomEntryAcc {
            external: source_links_fold(acc.external, evs),
            ..acc
        },
        AtomEntryEv::Other => acc,
    }
}

pub open spec fn atom_entry_fold(acc: AtomEntryAcc, evs: Seq<AtomEntryEv>) -> AtomEntryAcc
    decreases evs.len(),
{
    if evs.len() == 0 {
        acc
    } else {
        atom_entry_fold(atom_entry_step(acc, evs[0]), evs.drop_first())
    }
}

/// The canonical item that one entry container folds to.
pub open spec fn atom_item_of(evs: Seq<AtomEntryEv>) -> ItemModel {
    let acc = atom_entry_fold(atom_entry_acc0(), evs);
    ItemModel {
        id: acc.id,
        title: acc.title,
        content: acc.content,
        summary: acc.summary,
        url: href_of(acc.internal),
        external_url: href_of(acc.external),
        published_at: acc.published,
        modified_at: acc.modified,
    }
}

/// All items of a feed container, in document order.
pub open spec fn atom_items_of(evs: Seq<AtomFeedEv>) -> Seq<ItemModel>
    decreases evs.len(),
{
    if evs.len() == 0 {
        Seq::empty()
    } else {
        match evs[0] {
            AtomFeedEv::Entry(es) => seq![atom_item_of(es)] + atom_items_of(evs.drop_first()),
            _ => atom_items_of(evs.drop_first()),
        }
    }
}

// ---------------------------------------------------------------------------
// The executable adapter.
// ---------------------------------------------------------------------------

/// Folds a feed container's elements into one `Feed` record.
#[verifier::loop_isolation(false)]
fn fold_feed<'a>(feed_it: readfeed::atom::FeedIter<'a>) -> (f: Feed<'a>)
    ensures
        f@ == atom_feed_of(atom_feed_elems(feed_it)),
{
    let ghost evs0 = atom_feed_elems(feed_it);
    let mut it = feed_it;
    let mut title: Option<&'a str> = None;
    let mut description: Option<&'a str> = None;
    let mut home: Option<LinkCandidate<'a>> = None;
    loop
        invariant
            atom_feed_fold(
                AtomFeedAcc {
                    title: opt_text(title),
                    description: opt_text(description),
                    home: opt_link(home),
                },
                atom_feed_elems(it),
            ) == atom_feed_fold(atom_feed_acc0(), evs0),
        decreases atom_feed_elems(it).len(),
    {
        match atom_feed_next(&mut it) {
            None => {
                let home_page_url = match home {
                    Some(l) => l.href,
                    None => None,
                };
                return Feed { title, description, home_page_url };
            },
            Some(AtomFeedElem::Title(t)) => {
                if title.is_none() {
                    title = Some(t);
                }
            },
            Some(AtomFeedElem::Subtitle(t)) => {
                if description.is_none() {
                    description = Some(t);
                }
            },
            Some(AtomFeedElem::Link(l)) => {
                home = Some(
                    match home {
                        Some(e) => capture_internal_link(e, l),
                        None => l,
                    },
                );
            },
            Some(AtomFeedElem::Entry(_)) => {},
            Some(AtomFeedElem::Other) => {},
        }
    }
}

/// Folds the links of an entry's source container into the running
/// external-link choice.
#[verifier::loop_isolation(false)]
fn fold_source<'a>(src_it: readfeed::atom::SourceIter<'a>, ext: Option<LinkCandidate<'a>>) -> (r:
    Option<LinkCandidate<'a>>)
    ensures
        opt_link(r) == source_links_fold(opt_link(ext), atom_source_elems(src_it)),
{
    let ghost evs0 = atom_source_elems(src_it);
    let mut it = src_it;
    let mut acc = ext;
    loop
        invariant
            source_links_fold(opt_link(acc), atom_source_elems(it)) == source_links_fold(
                opt_link(ext),
                evs0,
            ),
        decreases atom_source_elems(it).len(),
    {
        match atom_source_next(&mut it) {
            None => {
                return acc;
            },
            Some(AtomSourceElem::Link(l)) => {
                acc = Some(
                    match acc {
                        Some(e) => capture_external_link(e, l),
                        None => l,
                    },
                );
            },
            Some(AtomSourceElem::Other) => {},
        }
    }
}

/// Folds one entry container into one canonical `Item`.
#[verifier::loop_isolation(false)]
fn fold_entry<'a>(entry_it: readfeed::atom::EntryIter<'a>) -> (item: Item<'a>)
    ensures
        item@ == atom_item_of(atom_entry_elems(entry_it)),
{
    let ghost evs0 = atom_entry_elems(entry_it);
    let mut it = entry_it;
    let mut id: Option<&'a str> = None;
    let mut title: Option<&'a str> = None;
    let mut content: Option<&'a str> = None;
    let mut summary: Option<&'a str> = None;
    let mut published: Option<Timestamp> = None;
    let mut modified: Option<Timestamp> = None;
    let mut internal: Option<LinkCandidate<'a>> = None;
    let mut external: Option<LinkCandidate<'a>> = None;
    loop
        invariant
            atom_entry_fold(
                AtomEntryAcc {
                    id: opt_text(id),
                    title: opt_text(title),
                    content: opt_text(content),
                    summary: opt_text(summary),
                    published: published,
                    modified: modified,
                    internal: opt_link(internal),
                    external: opt_link(external),
                },
                atom_entry_elems(it),
            ) == atom_entry_fold(atom_entry_acc0(), evs0),
        decreases atom_entry_elems(it).len(),
    {
        match atom_entry_next(&mut it) {
            None => {
                let url = match internal {
                    Some(l) => l.href,
                    None => None,
                };
                let external_url = match external {
                    Some(l) => l.href,
                    None => None,
                };
                return Item {
                    id,
                    title,
                    content,
                    summary,
                    url,
                    external_url,
                    published_at: published,
                    modified_at: modified,
                };
            },
            Some(AtomEntryElem::Content(t)) => {
                if content.is_none() {
                    content = Some(t);
                }
            },
            Some(AtomEntryElem::Id(t)) => {
                if id.is_none() {
                    id = Some(t);
                }
            },
            Some(AtomEntryElem::Summary(t)) => {
                if summary.is_none() {
                    summary = Some(t);
                }
            },
            Some(AtomEntryElem::Title(t)) => {
                if title.is_none() {
                    title = Some(t);
                }
            },
            Some(AtomEntryElem::Updated(t)) => {
                if modified.is_none() {
                    modified = convert_datetime(t);
                }
            },
            Some(AtomEntryElem::Published(t)) => {
                if published.is_none() {
                    published = convert_datetime(t);
                }
            },
            Some(AtomEntryElem::Link(l)) => {
                internal = Some(
                    match internal {
                        Some(e) => capture_internal_link(e, l),
                        None => l,
                    },
                );
                external = Some(
                    match external {
                        Some(e) => capture_external_link(e, l),
                        None => l,
                    },
                );
            },
            Some(AtomEntryElem::Source(src)) => {
                external = fold_source(src, external);
            },
            Some(AtomEntryElem::Other) => {},
        }
    }
}

/// Parses an Atom-family document's feed-level metadata: the first feed
/// container's fold, or nothing when no feed container exists.
#[verifier::loop_isolation(false)]
pub fn parse_feed(input: &str) -> (r: Option<Feed<'_>>)
    ensures
        r matches Some(f) ==> spec_parse_feed_atom(input@) == Some(f@),
        r is None ==> spec_parse_feed_atom(input@) is None,
{
    let mut it = atom_iter_new(input);
    loop
        invariant
            first_feed(atom_doc_elems(it)) == first_feed(atom_docs_of(input@)),
        decreases atom_doc_elems(it).len(),
    {
        match atom_iter_next(&mut it) {
            None => {
                return None;
            },
            Some(AtomDocElem::Feed(feed_it)) => {
                return Some(fold_feed(feed_it));
            },
            Some(AtomDocElem::Other) => {},
        }
    }
}

impl<'a> Iter<readfeed::atom::FeedIter<'a>> {
    /// The items this cursor has yet to yield, in document order.
    pub open spec fn items_left(self) -> Seq<ItemModel> {
        atom_items_of(atom_feed_elems(self.inner()))
    }

    /// Opens the item sequence of an Atom-family document: positions a
    /// cursor inside the first feed container, or yields nothing when no
    /// feed container exists.
#[verifier::loop_isolation(false)]
        pub fn with_atom(input: &'a str) -> (r: Option<Self>)
        ensures
            r matches Some(i) ==> first_feed(atom_docs_of(input@)) == Some(
                atom_feed_elems(i.inner()),
            ),
            r is None ==> first_feed(atom_docs_of(input@)) is None,
    {
        let mut it = atom_iter_new(input);
        loop
            invariant
                first_feed(atom_doc_elems(it)) == first_feed(atom_docs_of(input@)),
            decreases atom_doc_elems(it).len(),
        {
            match atom_iter_next(&mut it) {
                None => {
                    return None;
                },
                Some(AtomDocElem::Feed(feed_it)) => {
                    return Some(Iter::from_cursor(feed_it));
                },
                Some(AtomDocElem::Other) => {},
            }
        }
    }

    /// Scans forward for the next entry container and folds it into one
    /// `Item`; `None` once the element stream is exhausted.
#[verifier::loop_isolation(false)]
        pub fn next(&mut self) -> (r: Option<Item<'a>>)
        ensures
            match r {
                None => old(self).items_left().len() == 0 && final(self).items_left().len() == 0,
                Some(item) => old(self).items_left().len() > 0 && item@ == old(
                    self,
                ).items_left()[0] && final(self).items_left() == old(self).items_left().drop_first(),
            },
    {
        loop
            invariant
                atom_items_of(atom_feed_elems(self.inner())) == old(self).items_left(),
            decreases atom_feed_elems(self.inner()).len(),
        {
            let ghost before = atom_feed_elems(self.inner());
            match atom_feed_next(&mut self.feed) {
                None => {
                    return None;
                },
                Some(AtomFeedElem::Entry(en)) => {
                    proof {
                        assert(atom_items_of(before) == seq![atom_item_of(atom_entry_elems(en))]
                            + atom_items_of(atom_feed_elems(self.inner())));
                    }
                    return Some(fold_entry(en));
                },
                Some(_) => {},
            }
        }
    }
}

// ---------------------------------------------------------------------------
// Laws.
// ---------------------------------------------------------------------------

/// Counts the entry containers among a feed's elements.
pub open spec fn entry_count(evs: Seq<AtomFeedEv>) -> nat
    decreases evs.len(),
{
    if evs.len() == 0 {
        0
    } else {
        (if evs[0] is Entry {
            1nat
        } else {
            0nat
        }) + entry_count(evs.drop_first())
    }
}

/// A feed container with N entry containers yields exactly N items.
pub proof fn lemma_atom_items_count(evs: Seq<AtomFeedEv>)
    ensures
        atom_items_of(evs).len() == entry_count(evs),
    decreases evs.len(),
{
    if evs.len() == 0 {
    } else {
        lemma_atom_items_count(evs.drop_first());
    }
}

proof fn lemma_feed_fold_keeps_home(acc: AtomFeedAcc, evs: Seq<AtomFeedEv>)
    requires
        forall|i: int| 0 <= i < evs.len() ==> !(evs[i] is Link),
    ensures
        atom_feed_fold(acc, evs).home == acc.home,
    decreases evs.len(),
{
    if evs.len() == 0 {
    } else {
        assert forall|i: int| 0 <= i < evs.drop_first().len() implies !(evs.drop_first()[i]
            is Link) by {
            assert(evs.drop_first()[i] == evs[i + 1]);
        }
        lemma_feed_fold_keeps_home(atom_feed_step(acc, evs[0]), evs.drop_first());
    }
}

/// A feed container without link elements folds to a feed whose home page
/// address is unset.
pub proof fn lemma_atom_feed_no_links(evs: Seq<AtomFeedEv>)
    requires
        forall|i: int| 0 <= i < evs.len() ==> !(evs[i] is Link),
    ensures
        atom_feed_of(evs).home_page_url is None,
{
    lemma_feed_fold_keeps_home(atom_feed_acc0(), evs);
}

/// Whether an entry element carries no link, looking through any source
/// container.
pub open spec fn entry_ev_linkless(ev: AtomEntryEv) -> bool {
    match ev {
        AtomEntryEv::Link(_) => false,
        AtomEntryEv::Source(ses) => forall|j: int| 0 <= j < ses.len() ==> !(ses[j] is Link),
        _ => true,
    }
}

proof fn lemma_source_fold_no_links(ext: Option<LinkModel>, ses: Seq<AtomSourceEv>)
    requires
        forall|j: int| 0 <= j < ses.len() ==> !(ses[j] is Link),
    ensures
        source_links_fold(ext, ses) == ext,
    decreases ses.len(),
{
    if ses.len() == 0 {
    } else {
        assert forall|j: int| 0 <= j < ses.drop_first().len() implies !(ses.drop_first()[j]
            is Link) by {
            assert(ses.drop_first()[j] == ses[j + 1]);
        }
        lemma_source_fold_no_links(ext, ses.drop_first());
    }
}

proof fn lemma_entry_fold_keeps_internal(acc: AtomEntryAcc, evs: Seq<AtomEntryEv>)
    requires
        forall|i: int| 0 <= i < evs.len() ==> !(evs[i] is Link),
    ensures
        atom_entry_fold(acc, evs).internal == acc.internal,
    decreases evs.len(),
{
    if evs.len() == 0 {
    } else {
        assert forall|i: int| 0 <= i < evs.drop_first().len() implies !(evs.drop_first()[i]
            is Link) by {
            assert(evs.drop_first()[i] == evs[i + 1]);
        }
        lemma_entry_fold_keeps_internal(atom_entry_step(acc, evs[0]), evs.drop_first());
    }
}

proof fn lemma_entry_fold_keeps_external(acc: AtomEntryAcc, evs: Seq<AtomEntryEv>)
    requires
        forall|i: int| 0 <= i < evs.len() ==> entry_ev_linkless(evs[i]),
    ensures
        atom_entry_fold(acc, evs).external == acc.external,
    decreases evs.len(),
{
    if evs.len() == 0 {
    } else {
        match evs[0] {
            AtomEntryEv::Source(ses) => lemma_source_fold_no_links(acc.external, ses),
            _ => (),
        }
        assert forall|i: int| 0 <= i < evs.drop_first().len() implies entry_ev_linkless(
            evs.drop_first()[i],
        ) by {
            assert(evs.drop_first()[i] == evs[i + 1]);
        }
        lemma_entry_fold_keeps_external(atom_entry_step(acc, evs[0]), evs.drop_first());
    }
}

/// An entry without link elements, its source container included, folds to
/// an item with neither a url nor an external url.
pub proof fn lemma_atom_entry_no_links(evs: Seq<AtomEntryEv>)
    requires
        forall|i: int| 0 <= i < evs.len() ==> entry_ev_linkless(evs[i]),
    ensures
        atom_item_of(evs).url is None,
        atom_item_of(evs).external_url is None,
{
    assert forall|i: int| 0 <= i < evs.len() implies !(evs[i] is Link) by {
        assert(entry_ev_linkless(evs[i]));
    }
    lemma_entry_fold_keeps_internal(atom_entry_acc0(), evs);
    lemma_entry_fold_keeps_external(atom_entry_acc0(), evs);
}

proof fn lemma_entry_fold_single_link(acc: AtomEntryAcc, evs: Seq<AtomEntryEv>, k: int, l: LinkModel)
    requires
        acc.internal is None,
        0 <= k < evs.len(),
        evs[k] == AtomEntryEv::Link(l),
        forall|i: int| 0 <= i < evs.len() && i != k ==> !(evs[i] is Link),
    ensures
        atom_entry_fold(acc, evs).internal == Some(l),
    decreases evs.len(),
{
    let acc1 = atom_entry_step(acc, evs[0]);
    if k == 0 {
        assert(acc1.internal == Some(l));
        assert forall|i: int| 0 <= i < evs.drop_first().len() implies !(evs.drop_first()[i]
            is Link) by {
            assert(evs.drop_first()[i] == evs[i + 1]);
        }
        lemma_entry_fold_keeps_internal(acc1, evs.drop_first());
    } else {
        assert(acc1.internal is None);
        assert(evs.drop_first()[k - 1] == evs[k]);
        assert forall|i: int| 0 <= i < evs.drop_first().len() && i != k - 1 implies !(
        evs.drop_first()[i] is Link) by {
            assert(evs.drop_first()[i] == evs[i + 1]);
        }
        lemma_entry_fold_single_link(acc1, evs.drop_first(), k - 1, l);
    }
}

/// An entry whose only link element carries no relation label gets that
/// link's address as its url.
pub proof fn lemma_atom_entry_single_link(evs: Seq<AtomEntryEv>, k: int, l: LinkModel)
    requires
        0 <= k < evs.len(),
        evs[k] == AtomEntryEv::Link(l),
        l.rel is None,
        forall|i: int| 0 <= i < evs.len() && i != k ==> !(evs[i] is Link),
    ensures
        atom_item_of(evs).url == l.href,
{
    lemma_entry_fold_single_link(atom_entry_acc0(), evs, k, l);
}

proof fn lemma_feed_fold_single_link(acc: AtomFeedAcc, evs: Seq<AtomFeedEv>, k: int, l: LinkModel)
    requires
        acc.home is None,
        0 <= k < evs.len(),
        evs[k] == AtomFeedEv::Link(l),
        forall|i: int| 0 <= i < evs.len() && i != k ==> !(evs[i] is Link),
    ensures
        atom_feed_fold(acc, evs).home == Some(l),
    decreases evs.len(),
{
    let acc1 = atom_feed_step(acc, evs[0]);
    if k == 0 {
        assert(acc1.home == Some(l));
        assert forall|i: int| 0 <= i < evs.drop_first().len() implies !(evs.drop_first()[i]
            is Link) by {
            assert(evs.drop_first()[i] == evs[i + 1]);
        }
        lemma_feed_fold_keeps_home(acc1, evs.drop_first());
    } else {
        assert(acc1.home is None);
        assert(evs.drop_first()[k - 1] == evs[k]);
        assert forall|i: int| 0 <= i < evs.drop_first().len() && i != k - 1 implies !(
        evs.drop_first()[i] is Link) by {
            assert(evs.drop_first()[i] == evs[i + 1]);
        }
        lemma_feed_fold_single_link(acc1, evs.drop_first(), k - 1, l);
    }
}

/// A feed container whose only link element carries no relation label gets
/// that link's address as its home page url.
pub proof fn lemma_atom_feed_single_link(evs: Seq<AtomFeedEv>, k: int, l: LinkModel)
    requires
        0 <= k < evs.len(),
        evs[k] == AtomFeedEv::Link(l),
        l.rel is None,
        forall|i: int| 0 <= i < evs.len() && i != k ==> !(evs[i] is Link),
    ensures
        atom_feed_of(evs).home_page_url == l.href,
{
    lemma_feed_fold_single_link(atom_feed_acc0(), evs, k, l);
}

} // verus!
