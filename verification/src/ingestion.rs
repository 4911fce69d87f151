use vstd::prelude::*;

verus! {

/// The ingestor for lexicons without one of their own: it takes any event.
#[derive(Debug, Clone, Copy)]
pub struct DefaultLexiconIngestor;

/// An example of an ingestor for a lexicon of one's own.
#[derive(Debug, Clone, Copy)]
pub struct CustomLexiconIngestor;

} // verus!
