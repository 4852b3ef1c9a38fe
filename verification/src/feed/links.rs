use vstd::prelude::*;

use crate::feed::opt_text;

verus! {

/// One `<link>` occurrence of an entry or channel: its optional relation
/// label, optional MIME type, and optional target address, all borrowed.
#[derive(Debug, Clone, Copy)]
pub struct LinkCandidate<'a> {
    pub rel: Option<&'a str>,
    pub ty: Option<&'a str>,
    pub href: Option<&'a str>,
}

/// The mathematical value of a `LinkCandidate`.
pub ghost struct LinkModel {
    pub rel: Option<Seq<char>>,
    pub ty: Option<Seq<char>>,
    pub href: Option<Seq<char>>,
}

impl<'a> View for LinkCandidate<'a> {
    type V = LinkModel;

    open spec fn view(&self) -> LinkModel {
        LinkModel { rel: opt_text(self.rel), ty: opt_text(self.ty), href: opt_text(self.href) }
    }
}

/// The character's code, with ASCII upper-case letters folded to lower case.
pub open spec fn lower_code(c: char) -> int {
    if 65 <= c as int && c as int <= 90 {
        c as int + 32
    } else {
        c as int
    }
}

/// ASCII case-insensitive equality of two texts.
pub open spec fn eq_ignore_case(a: Seq<char>, b: Seq<char>) -> bool {
    a.len() == b.len() && forall|i: int| 0 <= i < a.len() ==> lower_code(a[i]) == lower_code(b[i])
}

/// Relies on `str::eq_ignore_ascii_case`: an ASCII case-insensitive match,
/// equivalent to comparing the ASCII-lowercase foldings of both texts.
#[verifier::external_body]
fn str_eq_ignore_case(a: &str, b: &str) -> (r: bool)
    ensures
        r == eq_ignore_case(a@, b@),
{
    a.eq_ignore_ascii_case(b)
}

/// Whether an optional relation label matches the given relation.
pub open spec fn rel_is(rel: Option<Seq<char>>, r: Seq<char>) -> bool {
    rel matches Some(s) && eq_ignore_case(s, r)
}

/// The tie-break on content type: the incoming link is preferred only when
/// the existing one declares no type and the incoming one is `text/html`.
pub open spec fn prefers_incoming_ty(existing: LinkModel, incoming: LinkModel) -> bool {
    existing.ty is None && (incoming.ty matches Some(t) && eq_ignore_case(t, "text/html"@))
}

/// The internal-link relation priority order.
pub open spec fn internal_rels() -> Seq<Seq<char>> {
    seq!["self"@, "related"@, "alternate"@]
}

/// The external-link relation priority order.
pub open spec fn external_rels() -> Seq<Seq<char>> {
    seq!["via"@, "related"@, "alternate"@, "self"@]
}

/// Walks a relation priority list when both candidates carry a label: the
/// first relation matching either label decides; a tie on the same relation
/// keeps the existing link unless the type tie-break prefers the incoming
/// one; an exhausted list keeps the existing link.
pub open spec fn walk_rels(rels: Seq<Seq<char>>, existing: LinkModel, incoming: LinkModel) -> LinkModel
    decreases rels.len(),
{
    if rels.len() == 0 {
        existing
    } else {
        let r = rels[0];
        if rel_is(existing.rel, r) {
            if rel_is(incoming.rel, r) && prefers_incoming_ty(existing, incoming) {
                incoming
            } else {
                existing
            }
        } else if rel_is(incoming.rel, r) {
            incoming
        } else {
            walk_rels(rels.drop_first(), existing, incoming)
        }
    }
}

/// One folding step of the internal-link table over a left-to-right stream
/// of candidates.
pub open spec fn spec_capture_internal(existing: LinkModel, incoming: LinkModel) -> LinkModel {
    if incoming.rel is Some {
        if existing.rel is Some {
            walk_rels(internal_rels(), existing, incoming)
        } else if rel_is(incoming.rel, "self"@) {
            incoming
        } else {
            existing
        }
    } else if existing.rel is Some {
        if rel_is(existing.rel, "related"@) || rel_is(existing.rel, "alternate"@) {
            incoming
        } else {
            existing
        }
    } else {
        if prefers_incoming_ty(existing, incoming) {
            incoming
        } else {
            existing
        }
    }
}

/// One folding step of the external-link table.
pub open spec fn spec_capture_external(existing: LinkModel, incoming: LinkModel) -> LinkModel {
    if incoming.rel is Some {
        if existing.rel is Some {
            walk_rels(external_rels(), existing, incoming)
        } else if rel_is(incoming.rel, "via"@) || rel_is(incoming.rel, "related"@)
            || rel_is(incoming.rel, "alternate"@) {
            incoming
        } else {
            existing
        }
    } else if existing.rel is Some {
        if rel_is(existing.rel, "via"@) || rel_is(existing.rel, "related"@)
            || rel_is(existing.rel, "alternate"@) {
            incoming
        } else {
            existing
        }
    } else {
        if prefers_incoming_ty(existing, incoming) {
            incoming
        } else {
            existing
        }
    }
}

/// Whether an optional relation matches the given relation, executably.
fn rel_matches(rel: Option<&str>, r: &str) -> (b: bool)
    ensures
        b == rel_is(opt_text(rel), r@),
{
    match rel {
        Some(s) => str_eq_ignore_case(s, r),
        None => false,
    }
}

/// The content-type tie-break, executably.
fn take_incoming_ty(existing: &LinkCandidate<'_>, incoming: &LinkCandidate<'_>) -> (b: bool)
    ensures
        b == prefers_incoming_ty(existing@, incoming@),
{
    match (existing.ty, incoming.ty) {
        (None, Some(t)) => str_eq_ignore_case(t, "text/html"),
        (_, _) => false,
    }
}

/// Folds one more candidate into the running internal-link choice.
pub fn capture_internal_link<'a>(existing: LinkCandidate<'a>, incoming: LinkCandidate<'a>) -> (r:
    LinkCandidate<'a>)
    ensures
        r@ == spec_capture_internal(existing@, incoming@),
{
    proof {
        reveal_with_fuel(walk_rels, 5);
        assert(internal_rels().drop_first() =~= seq!["related"@, "alternate"@]);
        assert(internal_rels().drop_first().drop_first() =~= seq!["alternate"@]);
        assert(internal_rels().drop_first().drop_first().drop_first() =~= Seq::<Seq<char>>::empty());
    }
    if incoming.rel.is_some() {
        if existing.rel.is_some() {
            if rel_matches(existing.rel, "self") {
                if rel_matches(incoming.rel, "self") && take_incoming_ty(&existing, &incoming) {
                    incoming
                } else {
                    existing
                }
            } else if rel_matches(incoming.rel, "self") {
                incoming
            } else if rel_matches(existing.rel, "related") {
                if rel_matches(incoming.rel, "related") && take_incoming_ty(&existing, &incoming) {
                    incoming
                } else {
                    existing
                }
            } else if rel_matches(incoming.rel, "related") {
                incoming
            } else if rel_matches(existing.rel, "alternate") {
                if rel_matches(incoming.rel, "alternate") && take_incoming_ty(&existing, &incoming) {
                    incoming
                } else {
                    existing
                }
            } else if rel_matches(incoming.rel, "alternate") {
                incoming
            } else {
                existing
            }
        } else if rel_matches(incoming.rel, "self") {
            incoming
        } else {
            existing
        }
    } else if existing.rel.is_some() {
        if rel_matches(existing.rel, "related") || rel_matches(existing.rel, "alternate") {
            incoming
        } else {
            existing
        }
    } else {
        if take_incoming_ty(&existing, &incoming) {
            incoming
        } else {
            existing
        }
    }
}

/// Folds one more candidate into the running external-link choice.
pub fn capture_external_link<'a>(existing: LinkCandidate<'a>, incoming: LinkCandidate<'a>) -> (r:
    LinkCandidate<'a>)
    ensures
        r@ == spec_capture_external(existing@, incoming@),
{
    proof {
        reveal_with_fuel(walk_rels, 6);
        assert(external_rels().drop_first() =~= seq!["related"@, "alternate"@, "self"@]);
        assert(external_rels().drop_first().drop_first() =~= seq!["alternate"@, "self"@]);
        assert(external_rels().drop_first().drop_first().drop_first() =~= seq!["self"@]);
        assert(external_rels().drop_first().drop_first().drop_first().drop_first()
            =~= Seq::<Seq<char>>::empty());
    }
    if incoming.rel.is_some() {
        if existing.rel.is_some() {
            if rel_matches(existing.rel, "via") {
                if rel_matches(incoming.rel, "via") && take_incoming_ty(&existing, &incoming) {
                    incoming
                } else {
                    existing
                }
            } else if rel_matches(incoming.rel, "via") {
                incoming
            } else if rel_matches(existing.rel, "related") {
                if rel_matches(incoming.rel, "related") && take_incoming_ty(&existing, &incoming) {
                    incoming
                } else {
                    existing
                }
            } else if rel_matches(incoming.rel, "related") {
                incoming
            } else if rel_matches(existing.rel, "alternate") {
                if rel_matches(incoming.rel, "alternate") && take_incoming_ty(&existing, &incoming) {
                    incoming
                } else {
                    existing
                }
            } else if rel_matches(incoming.rel, "alternate") {
                incoming
            } else if rel_matches(existing.rel, "self") {
                if rel_matches(incoming.rel, "self") && take_incoming_ty(&existing, &incoming) {
                    incoming
                } else {
                    existing
                }
            } else if rel_matches(incoming.rel, "self") {
                incoming
            } else {
                existing
            }
        } else if rel_matches(incoming.rel, "via") || rel_matches(incoming.rel, "related")
            || rel_matches(incoming.rel, "alternate") {
            incoming
        } else {
            existing
        }
    } else if existing.rel.is_some() {
        if rel_matches(existing.rel, "via") || rel_matches(existing.rel, "related")
            || rel_matches(existing.rel, "alternate") {
            incoming
        } else {
            existing
        }
    } else {
        if take_incoming_ty(&existing, &incoming) {
            incoming
        } else {
            existing
        }
    }
}

/// Seeds the running choice with the very first candidate; later candidates
/// fold through the internal-link table.
pub open spec fn fold_internal(acc: Option<LinkModel>, l: LinkModel) -> LinkModel {
    match acc {
        Some(e) => spec_capture_internal(e, l),
        None => l,
    }
}

/// Seeds the running choice with the very first candidate; later candidates
/// fold through the external-link table.
pub open spec fn fold_external(acc: Option<LinkModel>, l: LinkModel) -> LinkModel {
    match acc {
        Some(e) => spec_capture_external(e, l),
        None => l,
    }
}

/// The chosen link's target address, if a link was chosen and it has one.
pub open spec fn href_of(acc: Option<LinkModel>) -> Option<Seq<char>> {
    match acc {
        Some(l) => l.href,
        None => None,
    }
}

/// Lifts an optional candidate to its model.
pub open spec fn opt_link(o: Option<LinkCandidate<'_>>) -> Option<LinkModel> {
    match o {
        Some(l) => Some(l@),
        None => None,
    }
}

} // verus!
