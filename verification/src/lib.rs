//! Citations and bibliographies for LaTeX documents.
//!
//! A [`Citation`] describes one reference. Anything that implements [`Cite`]
//! can be rendered as an inline `\cite{..}` marker: a single citation, a
//! group of [`Citations`], or either of them as a [`Citeable`]. [`cited`]
//! joins text with such markers, and a [`Bibliography`] renders a whole list
//! of citations as BibTeX. [`declare`] builds a bibliography from named
//! citations and refuses a name that is declared twice.
//!
//! The text that is produced is meant for LaTeX and BibTeX and is exact to
//! the character; none of it is checked against the syntax of these tools.

pub mod bibliography;
pub mod citation;
pub mod cited;
pub mod declaration;
pub mod text;

pub use bibliography::Bibliography;
pub use citation::{Citation, CitationType, Citations, Cite, Citeable};
pub use cited::cited;
pub use declaration::{declare, DeclarationError, Declared};
