//! The citation record and its contributors.
use vstd::prelude::*;

use crate::dates::Date;

verus! {

/// All that is known about one publication. Every field may be absent.
#[derive(Clone)]
pub struct Citation {
    /// The title of the publication.
    pub title: Option<String>,
    /// The contributors to the publication, first credited first.
    pub contributors: Option<Vec<Contributor>>,
    /// The date of publication.
    pub date: Option<Date>,
    /// The date the publication was accessed on.
    pub accessed: Option<Date>,
    /// The ISBN of the publication.
    pub isbn: Option<String>,
    /// The publisher of the publication.
    pub publisher: Option<String>,
    /// The city where the publication was published.
    pub city_published: Option<String>,
    /// The volume of the publication.
    pub volume: Option<String>,
    /// The issue of the publication.
    pub issue: Option<String>,
    /// The chapter cited.
    pub chapter: Option<String>,
    /// The pages cited: the first page and, for a range, the last one.
    pub pages: Option<(u32, Option<u32>)>,
    /// The URL of the publication.
    pub url: Option<String>,
    /// The source of the publication.
    pub source: Option<String>,
    /// The number of the publication.
    pub number: Option<String>,
    /// The language of the publication.
    pub language: Option<String>,
    /// The edition of the publication.
    pub edition: Option<String>,
    /// The DOI of the publication.
    pub doi: Option<String>,
}

/// One party credited for a publication, a person or an organization.
#[derive(Clone)]
pub struct Contributor {
    /// True for an organization, false for a person.
    pub organization: bool,
    /// The last name of a person.
    pub last_name: Option<String>,
    /// The first name of a person, or the name of an organization.
    pub name: Option<String>,
    /// The middle name of a person.
    pub middle_name: Option<String>,
    /// A suffix such as `Jr.` or `III`.
    pub suffix: Option<String>,
    /// The role the contributor played.
    pub position: ContributorType,
}

/// The role of a contributor.
#[derive(Clone, Copy, Debug, PartialEq, Eq, Structural)]
pub enum ContributorType {
    /// The contributor is an author.
    Author,
    /// The contributor is an authority.
    Authority,
    /// The contributor is an editor.
    Editor,
    /// The contributor is a translator.
    Translator,
    /// The contributor appraised the work in a critique.
    Reviewer,
    /// The contributor is a director.
    Director,
    /// The contributor is a composer.
    Composer,
}

} // verus!
