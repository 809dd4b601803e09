//! Running text with citations in it.

use crate::citation::Cite;
use vstd::prelude::*;
use vstd::seq_lib::lemma_flatten_concat;
use vstd::string::StringExecFns;

verus! {

/// The given fragments in order, each text directly followed by the marker
/// of its citation. Nothing is trimmed and nothing is put in between.
pub open spec fn cited_text<C: Cite>(fragments: Seq<(&str, C)>) -> Seq<char> {
    fragments.flat_map(|fragment: (&str, C)| fragment.0@ + fragment.1.marker())
}

/// Joins pieces of text with the citations that follow them.
///
/// Each fragment is a text and what is cited right after it. To mix single
/// citations and groups in one call, wrap them in
/// [`Citeable`](crate::citation::Citeable).
pub fn cited<C: Cite>(fragments: &[(&str, C)]) -> (text: String)
    ensures
        text@ == cited_text(fragments@),
{
    let mut cited_string = String::new();
    let count = fragments.len();
    let mut done: usize = 0;
    while done < count
        invariant
            done <= count,
            count == fragments@.len(),
            cited_string@ == cited_text(fragments@.take(done as int)),
        decreases count - done,
    {
        cited_string.append(fragments[done].0);
        let marker = fragments[done].1.cite();
        cited_string.append(marker.as_str());
        proof {
            fragments@.lemma_flat_map_take_append(
                |fragment: (&str, C)| fragment.0@ + fragment.1.marker(),
                done as int,
            );
        }
        done += 1;
    }
    assert(fragments@.take(count as int) =~= fragments@);
    cited_string
}

/// Two fragments give the first text, the first marker, the second text and
/// the second marker, in this order and with nothing else; no fragments give
/// the empty string.
pub proof fn lemma_cited_two<C: Cite>(first: (&str, C), second: (&str, C))
    ensures
        cited_text(seq![first, second]) == first.0@ + first.1.marker() + second.0@
            + second.1.marker(),
        cited_text(Seq::<(&str, C)>::empty()) == Seq::<char>::empty(),
{
    let piece = |fragment: (&str, C)| fragment.0@ + fragment.1.marker();
    let none = Seq::<(&str, C)>::empty();
    assert(none.map_values(piece) =~= Seq::<Seq<char>>::empty());
    none.lemma_flat_map_push(piece, first);
    none.push(first).lemma_flat_map_push(piece, second);
    assert(seq![first, second] =~= none.push(first).push(second));
    assert(cited_text(seq![first, second]) =~= first.0@ + first.1.marker() + second.0@
        + second.1.marker());
}

/// Fragments are joined one after the other: the text of two lists in a row
/// is the text of the first followed by the text of the second.
pub proof fn lemma_cited_concat<C: Cite>(fragments: Seq<(&str, C)>, more: Seq<(&str, C)>)
    ensures
        cited_text(fragments + more) == cited_text(fragments) + cited_text(more),
{
    let piece = |fragment: (&str, C)| fragment.0@ + fragment.1.marker();
    assert((fragments + more).map_values(piece) =~= fragments.map_values(piece) + more.map_values(
        piece,
    ));
    lemma_flatten_concat(fragments.map_values(piece), more.map_values(piece));
}

} // verus!
