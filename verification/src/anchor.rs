//! The anchor: the transient node a numbered element renders its label
//! through. It is constructed during the show phase and immediately
//! converted to content; it is never persisted in the document tree.

use vstd::prelude::*;

use crate::content::{spec_opt_items, Content, Item, ItemModel};
use crate::counter::{spec_replay, Counter, CounterKey, CounterUpdateModel};
use crate::numbering::{spec_apply, spec_opt_numbering, Numbering, NumberingPatternModel};
use crate::styles::StyleChain;
use crate::text::push_char;

verus! {

/// What an anchor emits for its supplement: the resolved supplement
/// followed by one non-breaking space when the supplement is non-empty
/// content, nothing otherwise.
pub open spec fn spec_supplement_items(supp: Option<Seq<ItemModel>>) -> Seq<ItemModel> {
    match supp {
        Some(s) => if s.len() > 0 {
            s + seq![ItemModel::Text(seq!['\u{a0}'])]
        } else {
            Seq::empty()
        },
        None => Seq::empty(),
    }
}

/// What an anchor emits for its number: the counter — stepped at the
/// anchor's level as part of this very rendering — displayed through the
/// numbering; nothing when no numbering is present.
pub open spec fn spec_number_items(
    numbering: Option<NumberingPatternModel>,
    log: Seq<CounterUpdateModel>,
    level: usize,
) -> Seq<ItemModel> {
    match numbering {
        Some(p) => seq![
            ItemModel::Text(spec_apply(p, spec_replay(log.push(CounterUpdateModel::Step(level))))),
        ],
        None => Seq::empty(),
    }
}

/// The whole label an anchor renders: the supplement part, then the
/// number part, concatenated.
pub open spec fn spec_anchor_items(
    supp: Option<Seq<ItemModel>>,
    numbering: Option<NumberingPatternModel>,
    log: Seq<CounterUpdateModel>,
    level: usize,
) -> Seq<ItemModel> {
    spec_supplement_items(supp) + spec_number_items(numbering, log, level)
}

/// An anchor to be referenced.
pub struct AnchorElem {
    /// The key of the counter the anchor steps and displays.
    pub counter: CounterKey,
    /// The 1-based nesting level the anchor steps.
    pub level: usize,
    /// The already-resolved supplement, if any.
    pub supplement: Option<Content>,
    /// The numbering that renders the stepped value, if any.
    pub numbering: Option<Numbering>,
}

impl AnchorElem {
    /// Validity: a positive level, and a numbering (when present) that
    /// parsed into at least one piece.
    pub open spec fn wf(&self) -> bool {
        &&& self.level >= 1
        &&& (self.numbering matches Some(n) ==> n.wf())
    }

    /// A new anchor at the default level 1.
    pub fn new(counter: CounterKey, supplement: Option<Content>, numbering: Option<Numbering>) -> (r:
        AnchorElem)
        ensures
            r.counter == counter,
            r.level == 1,
            r.supplement == supplement,
            r.numbering == numbering,
    {
        AnchorElem { counter, level: 1, supplement, numbering }
    }

    /// Synthesis for an anchor caches its numbering, which it already
    /// holds resolved: the element is left exactly as it stands.
    pub fn synthesize(&mut self, _styles: &StyleChain)
        ensures
            *final(self) == *old(self),
    {
    }

    /// Renders the anchor. A non-empty supplement is emitted first,
    /// followed by a non-breaking space. With a numbering present, the
    /// counter is stepped at the anchor's level — the step bound to this
    /// render position is the call's one side effect — and the stepped
    /// value, displayed through the numbering, is emitted right after.
    /// Without one, the supplement (if any) is the whole output.
    pub fn show(&self, counter: &mut Counter) -> (r: Content)
        requires
            self.wf(),
            old(counter).key == self.counter,
        ensures
            r@ == spec_anchor_items(
                spec_opt_items(self.supplement),
                spec_opt_numbering(self.numbering),
                old(counter)@,
                self.level,
            ),
            final(counter).key == old(counter).key,
            final(counter)@ == (if self.numbering is Some {
                old(counter)@.push(CounterUpdateModel::Step(self.level))
            } else {
                old(counter)@
            }),
    {
        let mut content = Content::empty();
        match &self.supplement {
            Some(s) => {
                if !s.is_empty() {
                    content.append(s);
                    let mut nb = String::new();
                    push_char(&mut nb, '\u{a0}');
                    content.push(Item::Text(nb));
                }
            },
            None => {},
        }
        proof {
            assert(content@ =~= spec_supplement_items(spec_opt_items(self.supplement)));
        }
        match &self.numbering {
            Some(numbering) => {
                counter.step(self.level);
                let number = counter.display(numbering, false);
                content.push(Item::Text(number));
            },
            None => {},
        }
        proof {
            assert(content@ =~= spec_anchor_items(
                spec_opt_items(self.supplement),
                spec_opt_numbering(self.numbering),
                old(counter)@,
                self.level,
            ));
        }
        content
    }
}

} // verus!
