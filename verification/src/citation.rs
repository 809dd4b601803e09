//! A single citation, groups of citations, and how they are rendered.

use vstd::prelude::*;
use vstd::seq_lib::lemma_flatten_concat;
use vstd::std_specs::convert::FromSpecImpl;
use vstd::string::StringExecFns;

verus! {

/// Something that can be cited in running text.
pub trait Cite {
    /// The text that [`Cite::cite`] returns.
    spec fn marker(&self) -> Seq<char>;

    /// Returns a string representation of the citation.
    fn cite(&self) -> (marker: String)
        ensures
            marker@ == self.marker(),
    ;
}

/// Type of a citation.
#[derive(Clone, Copy, Debug, PartialEq, Eq, Structural)]
pub enum CitationType {
    /// A journal article, written as `@article`.
    Article,
}

/// One bibliographic reference.
///
/// Every field is opaque text: nothing is escaped or checked, and `year` is
/// not a number. Keys are expected to be unique within one bibliography; this
/// is left to whoever declares the citations.
#[derive(Clone, Copy, Debug)]
pub struct Citation {
    /// Key by which the citation is referenced.
    pub key: &'static str,
    /// Type.
    pub citation_type: CitationType,
    /// Title.
    pub title: &'static str,
    /// Author.
    pub author: &'static str,
    /// Year.
    pub year: &'static str,
}

/// The BibTeX entry of an article with the given fields: five lines, without
/// a newline after the closing brace.
pub open spec fn article_entry(
    key: Seq<char>,
    author: Seq<char>,
    title: Seq<char>,
    year: Seq<char>,
) -> Seq<char> {
    "@article{"@ + key + ",\nauthor={"@ + author + "},\ntitle={"@ + title + "},\nyear={"@ + year
        + "}\n}"@
}

/// The LaTeX command that cites the entry with the given key.
pub open spec fn cite_command(key: Seq<char>) -> Seq<char> {
    "\\cite{"@ + key + "}"@
}

/// The markers of the given citations, one full command each, in order and
/// with nothing between them.
///
/// LaTeX would also accept one command with the keys joined by commas. That
/// is not what is produced here: the output stays one command per citation.
pub open spec fn cite_commands(citations: Seq<Citation>) -> Seq<char> {
    citations.flat_map(|citation: Citation| cite_command(citation.key@))
}

impl Citation {
    /// The BibTeX entry of this citation.
    pub open spec fn bib_entry(&self) -> Seq<char> {
        match self.citation_type {
            CitationType::Article => article_entry(
                self.key@,
                self.author@,
                self.title@,
                self.year@,
            ),
        }
    }

    /// Returns a string representation of the citation in BibTeX format.
    pub fn to_bib_entry(&self) -> (entry: String)
        ensures
            entry@ == self.bib_entry(),
    {
        match self.citation_type {
            CitationType::Article => {
                let mut entry = String::from_str("@article{");
                entry.append(self.key);
                entry.append(",\nauthor={");
                entry.append(self.author);
                entry.append("},\ntitle={");
                entry.append(self.title);
                entry.append("},\nyear={");
                entry.append(self.year);
                entry.append("}\n}");
                entry
            },
        }
    }
}

impl Cite for Citation {
    open spec fn marker(&self) -> Seq<char> {
        cite_command(self.key@)
    }

    fn cite(&self) -> (marker: String) {
        let mut marker = String::from_str("\\cite{");
        marker.append(self.key);
        marker.append("}");
        marker
    }
}

/// Multiple citations, cited together.
///
/// A borrowed view of the citations; it neither owns nor copies them. Each
/// member is cited with a command of its own and nothing stands between the
/// commands: `\cite{a}\cite{b}`, not `\cite{a,b}`.
#[derive(Clone, Copy, Debug)]
pub struct Citations<'a>(pub &'a [Citation]);

impl<'a> From<&'a [Citation]> for Citations<'a> {
    fn from(citations: &'a [Citation]) -> (group: Self) {
        Self(citations)
    }
}

impl<'a> FromSpecImpl<&'a [Citation]> for Citations<'a> {
    open spec fn obeys_from_spec() -> bool {
        true
    }

    open spec fn from_spec(citations: &'a [Citation]) -> Self {
        Citations(citations)
    }
}

impl Cite for Citations<'_> {
    open spec fn marker(&self) -> Seq<char> {
        cite_commands(self.0@)
    }

    fn cite(&self) -> (marker: String) {
        let mut citations = String::new();
        let count = self.0.len();
        let mut done: usize = 0;
        while done < count
            invariant
                done <= count,
                count == self.0@.len(),
                citations@ == cite_commands(self.0@.take(done as int)),
            decreases count - done,
        {
            let marker = self.0[done].cite();
            citations.append(marker.as_str());
            proof {
                self.0@.lemma_flat_map_take_append(
                    |citation: Citation| cite_command(citation.key@),
                    done as int,
                );
            }
            done += 1;
        }
        assert(self.0@.take(count as int) =~= self.0@);
        citations
    }
}

/// A group is cited as its members are, one after the other: nothing for an
/// empty group, a group of one like the citation alone, and a group with one
/// more citation at its end as the same text with that citation's marker at
/// its end. So two groups in a row read as the one group that holds the
/// citations of both.
pub proof fn lemma_group_cites_each_member(
    citations: Seq<Citation>,
    last: Citation,
    more: Seq<Citation>,
)
    ensures
        cite_commands(Seq::empty()) == Seq::<char>::empty(),
        cite_commands(seq![last]) == last.marker(),
        cite_commands(citations.push(last)) == cite_commands(citations) + last.marker(),
        cite_commands(citations + more) == cite_commands(citations) + cite_commands(more),
{
    let command = |citation: Citation| cite_command(citation.key@);
    assert(Seq::<Citation>::empty().map_values(command) =~= Seq::<Seq<char>>::empty());
    seq![last].lemma_flat_map_singleton(command);
    citations.lemma_flat_map_push(command, last);
    assert((citations + more).map_values(command) =~= citations.map_values(command)
        + more.map_values(command));
    lemma_flatten_concat(citations.map_values(command), more.map_values(command));
}

/// Either one citation or a group of them.
///
/// Lets single citations and groups stand side by side in one list.
#[derive(Clone, Copy, Debug)]
pub enum Citeable<'a> {
    /// One citation.
    Single(&'a Citation),
    /// Several citations, cited one after the other.
    Group(Citations<'a>),
}

impl Cite for Citeable<'_> {
    open spec fn marker(&self) -> Seq<char> {
        match self {
            Citeable::Single(citation) => citation.marker(),
            Citeable::Group(citations) => citations.marker(),
        }
    }

    fn cite(&self) -> (marker: String) {
        match self {
            Citeable::Single(citation) => citation.cite(),
            Citeable::Group(citations) => citations.cite(),
        }
    }
}

} // verus!
