//! Rendering of citation records in the APA style.
use vstd::prelude::*;

use crate::citations::{Citation, Contributor, ContributorType};
use crate::dates::{date_text, decimal, digit_char, Date};

verus! {

/// The text of a field, or nothing where it is absent.
pub open spec fn text_or_empty(o: Option<String>) -> Seq<char> {
    match o {
        Some(s) => s@,
        None => Seq::empty(),
    }
}

/// `lead`, the first character of `part` and a period; nothing where `part` is absent or empty.
pub open spec fn initial(part: Option<String>, lead: Seq<char>) -> Seq<char> {
    match part {
        Some(s) => if s@.len() > 0 { lead + seq![s@[0], '.'] } else { Seq::empty() },
        None => Seq::empty(),
    }
}

/// A space and the suffix; nothing where it is absent or empty.
pub open spec fn suffix_text(suffix: Option<String>) -> Seq<char> {
    match suffix {
        Some(s) => if s@.len() > 0 { seq![' '] + s@ } else { Seq::empty() },
        None => Seq::empty(),
    }
}

/// How one author is named: `Last, F. M. Suffix`, each part only where it is known.
pub open spec fn author_token(c: Contributor) -> Seq<char> {
    text_or_empty(c.last_name) + initial(c.name, seq![',', ' ']) + initial(c.middle_name, seq![' '])
        + suffix_text(c.suffix)
}

/// Whether a contributor is credited as an author.
pub open spec fn is_author(c: Contributor) -> bool {
    c.position == ContributorType::Author
}

/// Appends `token` to the author list `acc`, after a comma and a space unless `acc` is empty.
pub open spec fn join_author(acc: Seq<char>, token: Seq<char>) -> Seq<char> {
    if acc.len() == 0 {
        token
    } else {
        acc + seq![',', ' '] + token
    }
}

/// The author list of a sequence of contributors: the authors alone, in their order, joined
/// by commas. No `&` stands before the last one.
pub open spec fn authors_text(s: Seq<Contributor>) -> Seq<char>
    decreases s.len(),
{
    if s.len() == 0 {
        Seq::empty()
    } else if is_author(s.last()) {
        join_author(authors_text(s.drop_last()), author_token(s.last()))
    } else {
        authors_text(s.drop_last())
    }
}

/// The contributors of a citation; none where the list is absent.
pub open spec fn contributors_of(c: Citation) -> Seq<Contributor> {
    match c.contributors {
        Some(v) => v@,
        None => Seq::empty(),
    }
}

/// The author list followed by a space; nothing where the list is empty.
pub open spec fn author_block(authors: Seq<char>) -> Seq<char> {
    if authors.len() > 0 {
        authors + seq![' ']
    } else {
        Seq::empty()
    }
}

/// The long form of a date.
pub open spec fn date_long(d: Date) -> Seq<char> {
    date_text(d.spec_year(), d.spec_month(), d.spec_day())
}

/// `(January 01, 2019). `, or nothing where the date is absent.
pub open spec fn date_fragment(date: Option<Date>) -> Seq<char> {
    match date {
        Some(d) => seq!['('] + date_long(d) + seq![')', '.', ' '],
        None => Seq::empty(),
    }
}

/// The text of a field followed by a period and a space, or nothing where it is absent.
pub open spec fn text_fragment(field: Option<String>) -> Seq<char> {
    match field {
        Some(s) => s@ + seq!['.', ' '],
        None => Seq::empty(),
    }
}

/// `(p. 5).` for one page, `(pp. 5-10).` for a range, nothing where pages are absent.
pub open spec fn pages_fragment(pages: Option<(u32, Option<u32>)>) -> Seq<char> {
    match pages {
        Some((start, None)) => seq!['(', 'p', '.', ' '] + decimal(start as nat) + seq![')', '.'],
        Some((start, Some(end))) => seq!['(', 'p', 'p', '.', ' '] + decimal(start as nat)
            + seq!['-'] + decimal(end as nat) + seq![')', '.'],
        None => Seq::empty(),
    }
}

/// The fragments that follow the author block, in their order.
pub open spec fn apa_tail(c: Citation) -> Seq<char> {
    date_fragment(c.date) + text_fragment(c.title) + text_fragment(c.source) + text_fragment(c.url)
        + text_fragment(c.doi) + pages_fragment(c.pages)
}

/// A citation in the APA style: authors, date, title, source, URL, DOI and pages, each only
/// where it is known.
pub open spec fn apa_text(c: Citation) -> Seq<char> {
    author_block(authors_text(contributors_of(c))) + apa_tail(c)
}

/// The text of the decimal digit `d`.
fn digit_str(d: u32) -> (r: &'static str)
    requires
        d < 10,
    ensures
        r@ == seq![digit_char(d as nat)],
{
    proof {
        reveal_strlit("0");
        reveal_strlit("1");
        reveal_strlit("2");
        reveal_strlit("3");
        reveal_strlit("4");
        reveal_strlit("5");
        reveal_strlit("6");
        reveal_strlit("7");
        reveal_strlit("8");
        reveal_strlit("9");
    }
    let r = if d == 0 {
        "0"
    } else if d == 1 {
        "1"
    } else if d == 2 {
        "2"
    } else if d == 3 {
        "3"
    } else if d == 4 {
        "4"
    } else if d == 5 {
        "5"
    } else if d == 6 {
        "6"
    } else if d == 7 {
        "7"
    } else if d == 8 {
        "8"
    } else {
        "9"
    };
    assert(r@ =~= seq![digit_char(d as nat)]);
    r
}

/// Appends the decimal digits of `n`.
fn push_decimal(out: &mut String, n: u32)
    ensures
        final(out)@ == old(out)@ + decimal(n as nat),
    decreases n,
{
    if n >= 10 {
        push_decimal(out, n / 10);
    }
    out.append(digit_str(n % 10));
    assert(out@ =~= old(out)@ + decimal(n as nat));
}

/// Appends `lead`, the first character of `part` and a period, where `part` is present and
/// not empty.
fn push_initial(out: &mut String, part: &Option<String>, lead: &str)
    ensures
        final(out)@ == old(out)@ + initial(*part, lead@),
{
    proof {
        reveal_strlit(".");
    }
    if let Some(s) = part {
        if !s.as_str().is_empty() {
            out.append(lead);
            out.append(s.as_str().substring_char(0, 1));
            out.append(".");
            assert(out@ =~= old(out)@ + initial(*part, lead@));
        }
    }
}

/// Appends how the contributor is named as an author.
fn push_author_token(out: &mut String, c: &Contributor)
    ensures
        final(out)@ == old(out)@ + author_token(*c),
{
    proof {
        reveal_strlit(", ");
        reveal_strlit(" ");
    }
    if let Some(last) = &c.last_name {
        out.append(last.as_str());
    }
    push_initial(out, &c.name, ", ");
    push_initial(out, &c.middle_name, " ");
    if let Some(suffix) = &c.suffix {
        if !suffix.as_str().is_empty() {
            out.append(" ");
            out.append(suffix.as_str());
        }
    }
    assert(out@ =~= old(out)@ + author_token(*c));
}

/// The author list of `contributors`: the authors alone, in their order, joined by commas.
fn author_list(contributors: &Vec<Contributor>) -> (r: String)
    ensures
        r@ == authors_text(contributors@),
{
    let mut out = String::new();
    let mut i: usize = 0;
    while i < contributors.len()
        invariant
            i <= contributors@.len(),
            out@ == authors_text(contributors@.subrange(0, i as int)),
        decreases contributors@.len() - i,
    {
        let c = &contributors[i];
        let ghost before = out@;
        let ghost next = contributors@.subrange(0, i + 1);
        assert(next.drop_last() =~= contributors@.subrange(0, i as int));
        assert(next.last() == *c);
        if c.position == ContributorType::Author {
            if !out.as_str().is_empty() {
                proof {
                    reveal_strlit(", ");
                }
                out.append(", ");
                assert(out@ =~= before + seq![',', ' ']);
            }
            let ghost mid = out@;
            push_author_token(&mut out, c);
            assert(out@ == mid + author_token(*c));
            assert(out@ =~= join_author(before, author_token(*c)));
        }
        assert(out@ == authors_text(next));
        i = i + 1;
    }
    assert(contributors@.subrange(0, i as int) =~= contributors@);
    out
}

/// Appends the text of `field`, a period and a space, where `field` is present.
fn push_text_fragment(out: &mut String, field: &Option<String>)
    ensures
        final(out)@ == old(out)@ + text_fragment(*field),
{
    proof {
        reveal_strlit(". ");
    }
    if let Some(s) = field {
        out.append(s.as_str());
        out.append(". ");
    }
    assert(out@ =~= old(out)@ + text_fragment(*field));
}

/// Appends the date in parentheses, a period and a space, where the date is present.
fn push_date_fragment(out: &mut String, date: &Option<Date>)
    ensures
        final(out)@ == old(out)@ + date_fragment(*date),
{
    proof {
        reveal_strlit("(");
        reveal_strlit("). ");
    }
    if let Some(d) = date {
        let text = d.long_text();
        out.append("(");
        out.append(text.as_str());
        out.append("). ");
    }
    assert(out@ =~= old(out)@ + date_fragment(*date));
}

/// Appends the cited page or page range in parentheses and a period, where pages are present.
fn push_pages_fragment(out: &mut String, pages: &Option<(u32, Option<u32>)>)
    ensures
        final(out)@ == old(out)@ + pages_fragment(*pages),
{
    proof {
        reveal_strlit("(pp. ");
        reveal_strlit("(p. ");
        reveal_strlit("-");
        reveal_strlit(").");
    }
    if let Some((start, end)) = pages {
        match end {
            Some(_) => out.append("(pp. "),
            None => out.append("(p. "),
        }
        push_decimal(out, *start);
        if let Some(last) = end {
            out.append("-");
            push_decimal(out, *last);
        }
        out.append(").");
    }
    assert(out@ =~= old(out)@ + pages_fragment(*pages));
}

/// Formats a citation in the APA style.
///
/// The authors come first, each as `Last, F. M. Suffix`, joined by commas with no `&` before
/// the last one, then a space. Then follow `(Month DD, YYYY). `, the title, the source, the URL
/// and the DOI, each followed by `. `, and last `(p. N).` or `(pp. N-M).`. Each part stands
/// only where its field is present. Contributors that are not authors are left out, and an
/// absent contributor list is taken as one without authors.
pub fn format_apa(citation: &Citation) -> (r: String)
    ensures
        r@ == apa_text(*citation),
{
    proof {
        reveal_strlit(" ");
    }
    let mut out = String::new();
    let authors = match &citation.contributors {
        Some(list) => author_list(list),
        None => String::new(),
    };
    if !authors.as_str().is_empty() {
        out.append(authors.as_str());
        out.append(" ");
    }
    assert(out@ =~= author_block(authors_text(contributors_of(*citation))));
    push_date_fragment(&mut out, &citation.date);
    push_text_fragment(&mut out, &citation.title);
    push_text_fragment(&mut out, &citation.source);
    push_text_fragment(&mut out, &citation.url);
    push_text_fragment(&mut out, &citation.doi);
    push_pages_fragment(&mut out, &citation.pages);
    assert(out@ =~= apa_text(*citation));
    out
}

} // verus!
