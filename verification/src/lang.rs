//! The active natural language, as resolved by the style cascade.

use vstd::prelude::*;

verus! {

/// A natural language a document can be set in. Element kinds carry a
/// localized default name per language, with English as the fallback for
/// every language they do not map explicitly.
#[derive(Clone, Copy, PartialEq, Eq, Structural, Debug)]
pub enum Lang {
    English,
    German,
    French,
    Spanish,
}

} // verus!
