//! Properties of the APA rendering, stated over the spec functions that `format_apa` meets.
use vstd::prelude::*;

use crate::citations::{Citation, Contributor};
use crate::formats::{
    apa_tail, apa_text, author_block, author_token, authors_text, contributors_of, date_fragment,
    initial, is_author, join_author, pages_fragment, text_fragment, text_or_empty,
};

verus! {

/// Two author lists one after the other: joined by a comma and a space where both are
/// non-empty.
pub open spec fn join_lists(a: Seq<char>, b: Seq<char>) -> Seq<char> {
    if a.len() == 0 {
        b
    } else if b.len() == 0 {
        a
    } else {
        a + seq![',', ' '] + b
    }
}

/// Whether every author of `t` that comes before any named author has a name of its own,
/// that is, whether no nameless author could open the author list of `t`.
pub open spec fn opens_with_named_author(t: Seq<Contributor>) -> bool {
    forall|k: int|
        0 <= k < t.len() && is_author(#[trigger] t[k]) && authors_text(t.subrange(0, k)).len() == 0
            ==> author_token(t[k]).len() > 0
}

/// Rendering is a function of the record: equal records give equal text.
pub proof fn lemma_format_deterministic(c: Citation, d: Citation)
    requires
        c == d,
    ensures
        apa_text(c) == apa_text(d),
{
}

/// An absent field leaves no trace: its fragment, punctuation included, is missing and the
/// other fragments follow one another directly.
pub proof fn lemma_absent_fields_leave_no_trace(c: Citation)
    ensures
        c.date is None ==> apa_text(c) == author_block(authors_text(contributors_of(c)))
            + text_fragment(c.title) + text_fragment(c.source) + text_fragment(c.url)
            + text_fragment(c.doi) + pages_fragment(c.pages),
        c.title is None ==> apa_text(c) == author_block(authors_text(contributors_of(c)))
            + date_fragment(c.date) + text_fragment(c.source) + text_fragment(c.url)
            + text_fragment(c.doi) + pages_fragment(c.pages),
        c.source is None ==> apa_text(c) == author_block(authors_text(contributors_of(c)))
            + date_fragment(c.date) + text_fragment(c.title) + text_fragment(c.url)
            + text_fragment(c.doi) + pages_fragment(c.pages),
        c.url is None ==> apa_text(c) == author_block(authors_text(contributors_of(c)))
            + date_fragment(c.date) + text_fragment(c.title) + text_fragment(c.source)
            + text_fragment(c.doi) + pages_fragment(c.pages),
        c.doi is None ==> apa_text(c) == author_block(authors_text(contributors_of(c)))
            + date_fragment(c.date) + text_fragment(c.title) + text_fragment(c.source)
            + text_fragment(c.url) + pages_fragment(c.pages),
        c.pages is None ==> apa_text(c) == author_block(authors_text(contributors_of(c)))
            + date_fragment(c.date) + text_fragment(c.title) + text_fragment(c.source)
            + text_fragment(c.url) + text_fragment(c.doi),
{
    let a = author_block(authors_text(contributors_of(c)));
    if c.date is None {
        assert(apa_text(c) =~= a + text_fragment(c.title) + text_fragment(c.source)
            + text_fragment(c.url) + text_fragment(c.doi) + pages_fragment(c.pages));
    }
    if c.title is None {
        assert(apa_text(c) =~= a + date_fragment(c.date) + text_fragment(c.source)
            + text_fragment(c.url) + text_fragment(c.doi) + pages_fragment(c.pages));
    }
    if c.source is None {
        assert(apa_text(c) =~= a + date_fragment(c.date) + text_fragment(c.title)
            + text_fragment(c.url) + text_fragment(c.doi) + pages_fragment(c.pages));
    }
    if c.url is None {
        assert(apa_text(c) =~= a + date_fragment(c.date) + text_fragment(c.title)
            + text_fragment(c.source) + text_fragment(c.doi) + pages_fragment(c.pages));
    }
    if c.doi is None {
        assert(apa_text(c) =~= a + date_fragment(c.date) + text_fragment(c.title)
            + text_fragment(c.source) + text_fragment(c.url) + pages_fragment(c.pages));
    }
    if c.pages is None {
        assert(apa_text(c) =~= a + date_fragment(c.date) + text_fragment(c.title)
            + text_fragment(c.source) + text_fragment(c.url) + text_fragment(c.doi));
    }
}

/// The fields that the APA style does not use (ISBN, publisher, city, volume, issue, number,
/// chapter, language, edition, access date) have no effect on the text.
pub proof fn lemma_unused_fields_ignored(c: Citation, d: Citation)
    requires
        c.contributors == d.contributors,
        c.date == d.date,
        c.title == d.title,
        c.source == d.source,
        c.url == d.url,
        c.doi == d.doi,
        c.pages == d.pages,
    ensures
        apa_text(c) == apa_text(d),
{
}

/// A contributor that is not an author never shows in the author list: removing one leaves
/// the list as it was.
pub proof fn lemma_non_author_ignored(s: Seq<Contributor>, i: int)
    requires
        0 <= i < s.len(),
        !is_author(s[i]),
    ensures
        authors_text(s.remove(i)) == authors_text(s),
    decreases s.len(),
{
    if i == s.len() - 1 {
        assert(s.remove(i) =~= s.drop_last());
    } else {
        let r = s.remove(i);
        assert(r.drop_last() =~= s.drop_last().remove(i));
        assert(r.last() == s.last());
        lemma_non_author_ignored(s.drop_last(), i);
    }
}

/// Authors keep their order: the author list of `s` followed by `t` is that of `s`, then that
/// of `t`. It fails only where `s` has a non-empty list and `t`'s list would open with a
/// nameless author, which the list of `t` alone drops and the joined list does not.
pub proof fn lemma_author_order(s: Seq<Contributor>, t: Seq<Contributor>)
    requires
        authors_text(s).len() == 0 || opens_with_named_author(t),
    ensures
        authors_text(s + t) == join_lists(authors_text(s), authors_text(t)),
    decreases t.len(),
{
    if t.len() == 0 {
        assert(s + t =~= s);
    } else {
        let t1 = t.drop_last();
        let x = t.last();
        assert((s + t).drop_last() =~= s + t1);
        assert((s + t).last() == x);
        if authors_text(s).len() != 0 {
            assert forall|k: int|
                0 <= k < t1.len() && is_author(#[trigger] t1[k])
                    && authors_text(t1.subrange(0, k)).len() == 0 implies author_token(
                t1[k],
            ).len() > 0 by {
                assert(t1.subrange(0, k) =~= t.subrange(0, k));
                assert(t[k] == t1[k]);
            }
            assert(t.subrange(0, t.len() - 1) =~= t1);
        }
        lemma_author_order(s, t1);
        let a = authors_text(s);
        let b1 = authors_text(t1);
        if is_author(x) {
            let tok = author_token(x);
            if a.len() != 0 && b1.len() == 0 {
                assert(is_author(t[t.len() - 1]));
                assert(tok.len() > 0);
            }
            assert(join_author(join_lists(a, b1), tok) =~= join_lists(a, join_author(b1, tok)));
        }
    }
}

/// A person with a first name but neither middle name nor suffix is named by the last name, a
/// comma, and the first initial with a period.
pub proof fn lemma_first_initial_only(c: Contributor)
    requires
        c.name is Some,
        c.name.unwrap()@.len() > 0,
        c.middle_name is None,
        c.suffix is None,
    ensures
        author_token(c) == text_or_empty(c.last_name) + seq![',', ' ', c.name.unwrap()@[0], '.'],
{
    assert(initial(c.name, seq![',', ' ']) =~= seq![',', ' ', c.name.unwrap()@[0], '.']);
    assert(author_token(c) =~= text_or_empty(c.last_name) + seq![
        ',',
        ' ',
        c.name.unwrap()@[0],
        '.',
    ]);
}

/// Without authors the author list is empty.
pub proof fn lemma_authors_text_empty(s: Seq<Contributor>)
    requires
        forall|i: int| 0 <= i < s.len() ==> !is_author(#[trigger] s[i]),
    ensures
        authors_text(s).len() == 0,
    decreases s.len(),
{
    if s.len() > 0 {
        lemma_authors_text_empty(s.drop_last());
    }
}

/// Where no contributor is an author, the text opens directly with the date fragment (or what
/// follows it): no space and no separator come first.
pub proof fn lemma_no_authors(c: Citation)
    requires
        forall|i: int|
            0 <= i < contributors_of(c).len() ==> !is_author(#[trigger] contributors_of(c)[i]),
    ensures
        apa_text(c) == apa_tail(c),
{
    lemma_authors_text_empty(contributors_of(c));
    assert(apa_text(c) =~= apa_tail(c));
}

/// An absent contributor list is taken as one without authors: the text is what follows the
/// author block.
pub proof fn lemma_absent_contributors(c: Citation)
    requires
        c.contributors is None,
    ensures
        apa_text(c) == apa_tail(c),
{
    assert(apa_text(c) =~= apa_tail(c));
}

} // verus!
