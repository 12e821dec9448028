//! The style chain: the read-only, resolved option values visible at
//! the point of query.
//!
//! The cascade that produces these values is a collaborator of this
//! subsystem; what arrives here is, per option, either a style-provided
//! value (`Some`) that overrides the element's own configuration, or
//! `None`, leaving the element's value in force.

use vstd::prelude::*;

use crate::content::Content;
use crate::lang::Lang;
use crate::numbering::Numbering;
use crate::supplement::SupplementConfig;

verus! {

/// The style values the numbering subsystem consumes.
pub struct StyleChain {
    /// The language active at render time.
    pub lang: Lang,
    /// A style rule for the figure numbering, if one is set.
    pub numbering: Option<Option<Numbering>>,
    /// A style rule for the supplement configuration, if one is set.
    pub supplement: Option<SupplementConfig>,
    /// A style rule for the caption separator, if one is set.
    pub sep: Option<Option<Content>>,
    /// A style rule for the body-to-caption gap (thousandths of an em).
    pub gap: Option<u64>,
}

impl StyleChain {
    /// A chain carrying the given language and no overriding rules.
    pub fn plain(lang: Lang) -> (r: StyleChain)
        ensures
            r.lang == lang,
            r.numbering is None,
            r.supplement is None,
            r.sep is None,
            r.gap is None,
    {
        StyleChain { lang, numbering: None, supplement: None, sep: None, gap: None }
    }
}

} // verus!
