use citations::citations::{Citation, Contributor, ContributorType};
use citations::dates::Date;
use citations::formats::format_apa;

fn empty_citation() -> Citation {
    Citation {
        title: None,
        contributors: Some(vec![]),
        date: None,
        accessed: None,
        isbn: None,
        publisher: None,
        city_published: None,
        volume: None,
        issue: None,
        chapter: None,
        pages: None,
        url: None,
        source: None,
        number: None,
        language: None,
        edition: None,
        doi: None,
    }
}

fn person(last: &str, first: &str, position: ContributorType) -> Contributor {
    Contributor {
        organization: false,
        last_name: Some(last.to_string()),
        name: Some(first.to_string()),
        middle_name: None,
        suffix: None,
        position,
    }
}

#[test]
fn test_apa() {
    let citation: Citation = Citation {
        title: Some("The Title".to_string()),
        contributors: Some(vec![
            Contributor {
                organization: false,
                last_name: Some("Last".to_string()),
                name: Some("First".to_string()),
                middle_name: None,
                suffix: None,
                position: ContributorType::Author,
            },
            Contributor {
                organization: false,
                last_name: Some("Last".to_string()),
                name: Some("First".to_string()),
                middle_name: None,
                suffix: None,
                position: ContributorType::Author,
            },
        ]),
        date: Some(Date::from_ymd(2019, 1, 1).unwrap()),
        accessed: None,
        isbn: Some("123456789".to_string()),
        publisher: None,
        city_published: None,
        volume: None,
        issue: None,
        chapter: None,
        pages: Some((1, Some(2))),
        url: None,
        source: None,
        number: None,
        language: None,
        edition: None,
        doi: None,
    };

    assert_eq!(
        "Last, F., Last, F. (January 01, 2019). The Title. (pp. 1-2).",
        format_apa(&citation)
    );
}

#[test]
fn formatting_twice_gives_the_same_text() {
    let mut c = empty_citation();
    c.title = Some("Twice".to_string());
    c.contributors = Some(vec![person("Doe", "Jane", ContributorType::Author)]);
    c.date = Some(Date::from_ymd(2001, 9, 30).unwrap());
    assert_eq!(format_apa(&c), format_apa(&c));
    assert_eq!(format_apa(&c), "Doe, J. (September 30, 2001). Twice. ");
}

#[test]
fn empty_record_gives_empty_text() {
    assert_eq!(format_apa(&empty_citation()), "");
}

#[test]
fn absent_fields_leave_no_punctuation() {
    let mut c = empty_citation();
    c.title = Some("Only Title".to_string());
    assert_eq!(format_apa(&c), "Only Title. ");
    c.doi = Some("10.1000/xyz".to_string());
    assert_eq!(format_apa(&c), "Only Title. 10.1000/xyz. ");
    c.title = None;
    c.pages = Some((3, None));
    assert_eq!(format_apa(&c), "10.1000/xyz. (p. 3).");
}

#[test]
fn all_fragments_in_order() {
    let mut c = empty_citation();
    c.contributors = Some(vec![person("Smith", "Anna", ContributorType::Author)]);
    c.date = Some(Date::from_ymd(1999, 12, 5).unwrap());
    c.title = Some("Book".to_string());
    c.source = Some("Journal".to_string());
    c.url = Some("https://example.org".to_string());
    c.doi = Some("10.1/2".to_string());
    c.pages = Some((7, Some(9)));
    assert_eq!(
        format_apa(&c),
        "Smith, A. (December 05, 1999). Book. Journal. https://example.org. 10.1/2. (pp. 7-9)."
    );
}

#[test]
fn unused_fields_have_no_effect() {
    let mut c = empty_citation();
    c.title = Some("T".to_string());
    let before = format_apa(&c);
    c.isbn = Some("978".to_string());
    c.publisher = Some("P".to_string());
    c.city_published = Some("C".to_string());
    c.volume = Some("1".to_string());
    c.issue = Some("2".to_string());
    c.number = Some("3".to_string());
    c.chapter = Some("4".to_string());
    c.language = Some("en".to_string());
    c.edition = Some("2nd".to_string());
    c.accessed = Some(Date::from_ymd(2020, 1, 1).unwrap());
    assert_eq!(format_apa(&c), before);
}

#[test]
fn authors_keep_their_order_and_non_authors_are_left_out() {
    let mut c = empty_citation();
    c.contributors = Some(vec![
        person("Zeta", "Zoe", ContributorType::Author),
        person("Editor", "Ed", ContributorType::Editor),
        person("Alpha", "Al", ContributorType::Author),
        person("Trans", "Tom", ContributorType::Translator),
        person("Mid", "Max", ContributorType::Author),
    ]);
    assert_eq!(format_apa(&c), "Zeta, Z., Alpha, A., Mid, M. ");
}

#[test]
fn first_name_gives_one_initial() {
    let mut c = empty_citation();
    c.contributors = Some(vec![person("Last", "First", ContributorType::Author)]);
    assert_eq!(format_apa(&c), "Last, F. ");
}

#[test]
fn middle_name_and_suffix() {
    let mut c = empty_citation();
    let mut p = person("King", "Martin", ContributorType::Author);
    p.middle_name = Some("Luther".to_string());
    p.suffix = Some("Jr.".to_string());
    c.contributors = Some(vec![p]);
    assert_eq!(format_apa(&c), "King, M. L. Jr. ");
}

#[test]
fn empty_name_parts_are_skipped() {
    let mut c = empty_citation();
    let mut p = person("Solo", "", ContributorType::Author);
    p.middle_name = Some(String::new());
    p.suffix = Some(String::new());
    c.contributors = Some(vec![p]);
    assert_eq!(format_apa(&c), "Solo ");
}

#[test]
fn initial_is_the_first_character() {
    let mut c = empty_citation();
    c.contributors = Some(vec![person("Zola", "Émile", ContributorType::Author)]);
    assert_eq!(format_apa(&c), "Zola, É. ");
}

#[test]
fn organization_without_last_name() {
    let mut c = empty_citation();
    c.contributors = Some(vec![Contributor {
        organization: true,
        last_name: None,
        name: Some("World Health Organization".to_string()),
        middle_name: None,
        suffix: None,
        position: ContributorType::Author,
    }]);
    assert_eq!(format_apa(&c), ", W. ");
}

#[test]
fn single_page() {
    let mut c = empty_citation();
    c.pages = Some((5, None));
    assert_eq!(format_apa(&c), "(p. 5).");
}

#[test]
fn page_range() {
    let mut c = empty_citation();
    c.pages = Some((5, Some(10)));
    assert_eq!(format_apa(&c), "(pp. 5-10).");
}

#[test]
fn page_numbers_at_the_limits() {
    let mut c = empty_citation();
    c.pages = Some((0, Some(u32::MAX)));
    assert_eq!(format_apa(&c), "(pp. 0-4294967295).");
}

#[test]
fn absent_contributors_mean_no_authors() {
    let mut c = empty_citation();
    c.contributors = None;
    c.title = Some("Anonymous".to_string());
    assert_eq!(format_apa(&c), "Anonymous. ");
    let mut d = c.clone();
    d.contributors = Some(vec![]);
    assert_eq!(format_apa(&c), format_apa(&d));
}

#[test]
fn no_authors_gives_no_leading_space() {
    let mut c = empty_citation();
    c.contributors = Some(vec![
        person("Editor", "Ed", ContributorType::Editor),
        person("Voice", "Vera", ContributorType::Reviewer),
    ]);
    c.date = Some(Date::from_ymd(2019, 1, 1).unwrap());
    assert_eq!(format_apa(&c), "(January 01, 2019). ");
}

#[test]
fn date_text_of_each_month() {
    let names = [
        "January", "February", "March", "April", "May", "June", "July", "August", "September",
        "October", "November", "December",
    ];
    for (i, name) in names.iter().enumerate() {
        let d = Date::from_ymd(2024, i as u32 + 1, 15).unwrap();
        assert_eq!(d.long_text(), format!("{} 15, 2024", name));
    }
}

#[test]
fn date_text_of_small_and_large_years() {
    assert_eq!(Date::from_ymd(5, 3, 9).unwrap().long_text(), "March 09, 0005");
    assert_eq!(Date::from_ymd(12345, 6, 1).unwrap().long_text(), "June 01, +12345");
    assert_eq!(Date::from_ymd(-44, 3, 15).unwrap().long_text(), "March 15, -0044");
}

#[test]
fn dates_are_checked() {
    assert!(Date::from_ymd(2019, 2, 29).is_none());
    assert!(Date::from_ymd(2020, 2, 29).is_some());
    assert!(Date::from_ymd(1900, 2, 29).is_none());
    assert!(Date::from_ymd(2000, 2, 29).is_some());
    assert!(Date::from_ymd(-4, 2, 29).is_some());
    assert!(Date::from_ymd(2019, 4, 31).is_none());
    assert!(Date::from_ymd(2019, 0, 1).is_none());
    assert!(Date::from_ymd(2019, 13, 1).is_none());
    assert!(Date::from_ymd(2019, 1, 0).is_none());
    assert!(Date::from_ymd(262142, 12, 31).is_some());
    assert!(Date::from_ymd(262143, 1, 1).is_none());
    assert!(Date::from_ymd(-262143, 1, 1).is_some());
    assert!(Date::from_ymd(-262144, 1, 1).is_none());
}

#[test]
fn date_parts_are_kept() {
    let d = Date::from_ymd(2019, 7, 4).unwrap();
    assert_eq!((d.year(), d.month(), d.day()), (2019, 7, 4));
}
