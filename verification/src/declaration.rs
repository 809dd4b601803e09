//! Declaring a bibliography: named citations, collected once and in order.

use crate::bibliography::Bibliography;
use crate::citation::Citation;
use crate::text::same_text;
use vstd::prelude::*;

verus! {

/// Why a list of declarations was refused.
#[derive(Clone, Copy, Debug, PartialEq, Eq, Structural)]
pub enum DeclarationError {
    /// Two declarations have the same name.
    ///
    /// `second` is the position of the first declaration whose name was
    /// already taken, `first` the position of the declaration that took it.
    DuplicateName { first: usize, second: usize },
}

/// The names of the given declarations, in order.
pub open spec fn declared_names(declarations: Seq<(&str, Citation)>) -> Seq<Seq<char>> {
    declarations.map_values(|declaration: (&str, Citation)| declaration.0@)
}

/// The citations of the given declarations, in order.
pub open spec fn declared_citations(declarations: Seq<(&str, Citation)>) -> Seq<Citation> {
    declarations.map_values(|declaration: (&str, Citation)| declaration.1)
}

/// Whether `second` is the first position in `names` that repeats an earlier
/// name, and `first` the position that it repeats.
pub open spec fn first_repeated_name(names: Seq<Seq<char>>, first: int, second: int) -> bool {
    &&& 0 <= first < second < names.len()
    &&& names[first] == names[second]
    &&& names.take(second).no_duplicates()
}

/// A declared bibliography: each citation under its name, in declaration
/// order, and no name twice.
#[derive(Debug)]
pub struct Declared<'a> {
    names: Vec<&'a str>,
    citations: Vec<Citation>,
}

impl<'a> Declared<'a> {
    #[verifier::type_invariant]
    spec fn well_formed(&self) -> bool {
        &&& self.names@.len() == self.citations@.len()
        &&& self.names().no_duplicates()
    }

    /// The declared names, in declaration order.
    pub closed spec fn names(&self) -> Seq<Seq<char>> {
        self.names@.map_values(|name: &str| name@)
    }

    /// The declared citations, in declaration order.
    pub closed spec fn citations(&self) -> Seq<Citation> {
        self.citations@
    }

    /// The citation declared under `name`, if there is one.
    ///
    /// No name is declared twice, so at most one citation can be meant.
    pub fn get(&self, name: &str) -> (found: Option<&Citation>)
        ensures
            self.names().len() == self.citations().len(),
            self.names().no_duplicates(),
            match found {
                Some(citation) => exists|i: int|
                    0 <= i < self.names().len() && self.names()[i] == name@
                        && self.citations()[i] == *citation,
                None => !self.names().contains(name@),
            },
    {
        proof {
            use_type_invariant(self);
        }
        let count = self.names.len();
        let mut at: usize = 0;
        while at < count
            invariant
                at <= count,
                count == self.names@.len(),
                count == self.citations@.len(),
                self.names().no_duplicates(),
                forall|i: int| 0 <= i < at ==> self.names()[i] != name@,
            decreases count - at,
        {
            if same_text(self.names[at], name) {
                assert(self.names()[at as int] == name@);
                return Some(&self.citations[at]);
            }
            at += 1;
        }
        None
    }

    /// All declared citations as one bibliography, in declaration order.
    pub fn bibliography(&self) -> (bibliography: Bibliography<'_>)
        ensures
            bibliography.0@ == self.citations(),
    {
        Bibliography(self.citations.as_slice())
    }
}

/// Declares a bibliography from named citations.
///
/// Succeeds exactly when no name is declared twice. The result then holds the
/// names and citations as given and in the order given. Keys are not
/// compared: two declarations may carry the same key.
pub fn declare<'a>(declarations: &[(&'a str, Citation)]) -> (result: Result<
    Declared<'a>,
    DeclarationError,
>)
    ensures
        result is Ok <==> declared_names(declarations@).no_duplicates(),
        match result {
            Ok(declared) => {
                &&& declared.names() == declared_names(declarations@)
                &&& declared.citations() == declared_citations(declarations@)
            },
            Err(DeclarationError::DuplicateName { first, second }) => first_repeated_name(
                declared_names(declarations@),
                first as int,
                second as int,
            ),
        },
{
    let count = declarations.len();
    let mut names: Vec<&'a str> = Vec::new();
    let mut citations: Vec<Citation> = Vec::new();
    let mut second: usize = 0;
    while second < count
        invariant
            second <= count,
            count == declarations@.len(),
            names@.len() == second,
            citations@.len() == second,
            forall|i: int| 0 <= i < second ==> names@[i]@ == declarations@[i].0@,
            forall|i: int| 0 <= i < second ==> citations@[i] == declarations@[i].1,
            declared_names(declarations@).take(second as int).no_duplicates(),
        decreases count - second,
    {
        let name = declarations[second].0;
        let mut first: usize = 0;
        while first < second
            invariant
                first <= second < count,
                count == declarations@.len(),
                name@ == declarations@[second as int].0@,
                declared_names(declarations@).take(second as int).no_duplicates(),
                forall|i: int| 0 <= i < first ==> declarations@[i].0@ != name@,
            decreases second - first,
        {
            if same_text(declarations[first].0, name) {
                assert(declared_names(declarations@)[first as int] == declared_names(
                    declarations@,
                )[second as int]);
                return Err(DeclarationError::DuplicateName { first, second });
            }
            first += 1;
        }
        assert(declared_names(declarations@).take(second + 1).no_duplicates()) by {
            let before = declared_names(declarations@).take(second as int);
            let with = declared_names(declarations@).take(second + 1);
            assert forall|i: int, j: int| 0 <= i < j < with.len() implies with[i] != with[j] by {
                if j < second {
                    assert(before[i] != before[j]);
                }
            }
        }
        names.push(name);
        citations.push(declarations[second].1);
        second += 1;
    }
    assert(declared_names(declarations@).take(count as int) =~= declared_names(declarations@));
    assert(names@.map_values(|name: &str| name@) =~= declared_names(declarations@));
    let declared = Declared { names, citations };
    assert(declared.names() =~= declared_names(declarations@));
    assert(declared.citations() =~= declared_citations(declarations@));
    Ok(declared)
}

} // verus!
