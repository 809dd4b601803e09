//! The bibliography: every declared citation, in declaration order.

use crate::citation::Citation;
use vstd::prelude::*;
use vstd::seq_lib::lemma_flatten_concat;
use vstd::std_specs::convert::IntoSpecImpl;
use vstd::string::StringExecFns;

verus! {

/// The BibTeX database of the given citations: each entry followed by a
/// newline, in the order given.
pub open spec fn bib_database(citations: Seq<Citation>) -> Seq<char> {
    citations.flat_map(|citation: Citation| citation.bib_entry() + "\n"@)
}

/// The BibTeX database of the given citations inside a `filecontents*`
/// environment that names the file `main.bib`.
pub open spec fn bib_filecontents(citations: Seq<Citation>) -> Seq<char> {
    "\\begin{filecontents*}{main.bib}\n"@ + bib_database(citations) + "\\end{filecontents*}\n"@
}

/// A bibliography of two citations is written as the entry of the first, a
/// newline, the entry of the second and a newline; inside `filecontents*` the
/// same text stands between the opening and the closing line.
pub proof fn lemma_database_of_two(first: Citation, second: Citation)
    ensures
        bib_database(seq![first, second]) == first.bib_entry() + "\n"@ + second.bib_entry()
            + "\n"@,
        bib_filecontents(seq![first, second]) == "\\begin{filecontents*}{main.bib}\n"@ + (
            first.bib_entry() + "\n"@ + second.bib_entry() + "\n"@
        ) + "\\end{filecontents*}\n"@,
{
    let line = |citation: Citation| citation.bib_entry() + "\n"@;
    let none = Seq::<Citation>::empty();
    assert(none.map_values(line) =~= Seq::<Seq<char>>::empty());
    none.lemma_flat_map_push(line, first);
    none.push(first).lemma_flat_map_push(line, second);
    assert(seq![first, second] =~= none.push(first).push(second));
    assert(bib_database(seq![first, second]) =~= first.bib_entry() + "\n"@ + second.bib_entry()
        + "\n"@);
}

/// Entries are written in the order of the citations, never sorted: the
/// database of two lists in a row is the database of the first followed by
/// that of the second, so two citations declared the other way round give
/// the same two entries the other way round.
pub proof fn lemma_database_keeps_order(
    citations: Seq<Citation>,
    more: Seq<Citation>,
    one: Citation,
    other: Citation,
)
    ensures
        bib_database(citations + more) == bib_database(citations) + bib_database(more),
        bib_database(seq![one]) == one.bib_entry() + "\n"@,
        bib_database(seq![one, other]) == bib_database(seq![one]) + bib_database(seq![other]),
        bib_database(seq![other, one]) == bib_database(seq![other]) + bib_database(seq![one]),
{
    let line = |citation: Citation| citation.bib_entry() + "\n"@;
    assert((citations + more).map_values(line) =~= citations.map_values(line) + more.map_values(
        line,
    ));
    lemma_flatten_concat(citations.map_values(line), more.map_values(line));
    seq![one].lemma_flat_map_singleton(line);
    lemma_database_of_two(one, other);
    lemma_database_of_two(other, one);
    seq![other].lemma_flat_map_singleton(line);
}

/// All citations of a document, in the order in which they were declared.
///
/// A borrowed view of the citations; it neither owns nor copies them. The
/// order decides the order of the entries in the output and nothing else.
#[derive(Clone, Copy, Debug)]
pub struct Bibliography<'a>(pub &'a [Citation]);

impl Bibliography<'_> {
    /// Appends the BibTeX database of the bibliography to `text`.
    fn append_database(&self, text: &mut String)
        ensures
            final(text)@ == old(text)@ + bib_database(self.0@),
    {
        let count = self.0.len();
        let mut done: usize = 0;
        while done < count
            invariant
                done <= count,
                count == self.0@.len(),
                text@ == old(text)@ + bib_database(self.0@.take(done as int)),
            decreases count - done,
        {
            let entry = self.0[done].to_bib_entry();
            text.append(entry.as_str());
            text.append("\n");
            proof {
                self.0@.lemma_flat_map_take_append(
                    |citation: Citation| citation.bib_entry() + "\n"@,
                    done as int,
                );
            }
            done += 1;
        }
        assert(self.0@.take(count as int) =~= self.0@);
    }

    /// Returns the bibliography in BibTeX format, as it is written to a
    /// `.bib` file.
    pub fn to_string(&self) -> (database: String)
        ensures
            database@ == bib_database(self.0@),
    {
        let mut bibliography = String::new();
        self.append_database(&mut bibliography);
        bibliography
    }

    /// Returns a string representation of the bibliography in BibTeX format,
    /// wrapped in a `filecontents*` environment.
    pub fn to_filecontents(&self) -> (filecontents: String)
        ensures
            filecontents@ == bib_filecontents(self.0@),
    {
        let mut filecontents = String::new();

        filecontents.append("\\begin{filecontents*}{main.bib}\n");

        self.append_database(&mut filecontents);

        filecontents.append("\\end{filecontents*}\n");

        filecontents
    }
}

// What `into` returns is stated by `into` itself: there is no spec value for
// a `String` with a given text that `into_spec` could name.
impl<'a, 'b> Into<String> for &'b Bibliography<'a> {
    /// Returns the bibliography in BibTeX format, as
    /// [`Bibliography::to_string`] does.
    fn into(self) -> (database: String)
        ensures
            String::view(&database) == bib_database(self.0@),
    {
        self.to_string()
    }
}

impl<'a, 'b> IntoSpecImpl<String> for &'b Bibliography<'a> {
    open spec fn obeys_into_spec() -> bool {
        false
    }

    open spec fn into_spec(self) -> String {
        arbitrary()
    }
}

} // verus!
