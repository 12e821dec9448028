//! Figures: persistent numbered document nodes with an optional caption.
//!
//! A figure owns its body and caption; its counter is shared, by key,
//! with every figure of the same kind. Rendering runs in two phases: a
//! synthesis pass materializes the effective numbering on the element,
//! and the show pass steps the shared counter, composes the anchor
//! label, separator and caption, and wraps everything in a centered,
//! non-breakable block.

use vstd::prelude::*;

use crate::anchor::{spec_anchor_items, spec_number_items, AnchorElem};
use crate::content::{spec_opt_items, Block, Content, Item, ItemModel};
use crate::counter::{Counter, CounterKey, CounterUpdateModel};
use crate::lang::Lang;
use crate::numbering::{
    spec_opt_numbering, Numbering, NumberingKind, NumberingPattern, NumberingPatternModel,
    NumberingPieceModel,
};
use crate::styles::StyleChain;
use crate::supplement::{
    resolve_supplement, spec_resolve_supplement, SupplementConfig, SupplementConfigModel,
};

verus! {

/// The default vertical gap between a figure's body and its caption
/// line, in thousandths of an em (0.65 em).
pub const DEFAULT_GAP: u64 = 650;

/// The localized default name of the figure kind: its German name where
/// German is active, the English name for every other language.
pub open spec fn spec_local_name(lang: Lang) -> Seq<char> {
    match lang {
        Lang::German => "Abbildung"@,
        _ => "Figure"@,
    }
}

/// The pattern the default figure numbering parses to: one arabic
/// piece, no affixes.
pub open spec fn spec_default_pattern() -> NumberingPatternModel {
    NumberingPatternModel {
        pieces: seq![NumberingPieceModel { prefix: Seq::empty(), kind: NumberingKind::Arabic }],
        suffix: Seq::empty(),
    }
}

/// A figure with an optional caption.
pub struct FigureElem {
    /// The content of the figure, often an image.
    pub body: Content,
    /// Supplement configuration for the caption label.
    pub supplement: SupplementConfig,
    /// The key of the counter numbering this figure.
    pub counter: CounterKey,
    /// How to number the figure, if at all.
    pub numbering: Option<Numbering>,
    /// The separator between the anchor label and the caption.
    pub sep: Option<Content>,
    /// The figure's caption.
    pub caption: Option<Content>,
    /// The vertical gap between body and caption line, in thousandths
    /// of an em.
    pub gap: u64,
}

impl FigureElem {
    /// The numbering in force: the style-resolved value where a style
    /// rule is set, the element's own otherwise.
    pub open spec fn spec_numbering(&self, styles: StyleChain) -> Option<NumberingPatternModel> {
        match styles.numbering {
            Some(n) => spec_opt_numbering(n),
            None => spec_opt_numbering(self.numbering),
        }
    }

    /// The supplement configuration in force.
    pub open spec fn spec_supplement(&self, styles: StyleChain) -> SupplementConfigModel {
        match styles.supplement {
            Some(c) => c@,
            None => self.supplement@,
        }
    }

    /// The separator in force.
    pub open spec fn spec_sep(&self, styles: StyleChain) -> Option<Seq<ItemModel>> {
        match styles.sep {
            Some(s) => spec_opt_items(s),
            None => spec_opt_items(self.sep),
        }
    }

    /// The gap in force, in thousandths of an em.
    pub open spec fn spec_gap(&self, styles: StyleChain) -> u64 {
        match styles.gap {
            Some(g) => g,
            None => self.gap,
        }
    }

    /// Validity: whatever numbering is in force parsed into at least
    /// one piece.
    pub open spec fn wf(&self, styles: StyleChain) -> bool {
        self.spec_numbering(styles) matches Some(p) ==> p.pieces.len() >= 1
    }

    /// A new figure around `body`, with the documented defaults: an
    /// automatic supplement, the figure kind's shared counter, the
    /// plain arabic pattern "1", the separator ": ", no caption, and a
    /// gap of 0.65 em.
    pub fn new(body: Content) -> (r: FigureElem)
        ensures
            r.body@ == body@,
            r.supplement@ == SupplementConfigModel::Automatic,
            r.counter == CounterKey::Figure,
            spec_opt_numbering(r.numbering) == Some(spec_default_pattern()),
            spec_opt_items(r.sep) == Some(seq![ItemModel::Text(": "@)]),
            r.caption is None,
            r.gap == DEFAULT_GAP,
    {
        proof {
            reveal_strlit("1");
            assert("1"@.len() == 1);
            assert(crate::numbering::spec_parse_rec("1"@, 1, Seq::empty()) == (
                Seq::<NumberingPieceModel>::empty(),
                Seq::<char>::empty(),
            ));
            assert(crate::numbering::spec_parse("1"@).pieces =~= spec_default_pattern().pieces);
            assert(crate::numbering::spec_parse("1"@).suffix =~= spec_default_pattern().suffix);
        }
        let numbering = match NumberingPattern::from_str("1") {
            Ok(p) => Some(Numbering::Pattern(p)),
            Err(_) => {
                proof {
                    assert(false);
                }
                None
            },
        };
        FigureElem {
            body,
            supplement: SupplementConfig::Automatic,
            counter: CounterKey::Figure,
            numbering,
            sep: Some(Content::text(String::from_str(": "))),
            caption: None,
            gap: DEFAULT_GAP,
        }
    }

    /// The localized default name of the figure kind, total over every
    /// language: German maps to its own name, everything else falls
    /// back to the English one.
    pub fn local_name(&self, lang: Lang) -> (r: &'static str)
        ensures
            r@ == spec_local_name(lang),
    {
        match lang {
            Lang::German => "Abbildung",
            _ => "Figure",
        }
    }

    /// Synthesis: materializes the effective numbering — the
    /// style-resolved value — on the element itself. Reads nothing but
    /// resolved style values and produces no content.
    pub fn synthesize(&mut self, styles: &StyleChain)
        ensures
            spec_opt_numbering(final(self).numbering) == old(self).spec_numbering(*styles),
            final(self).body == old(self).body,
            final(self).supplement == old(self).supplement,
            final(self).counter == old(self).counter,
            final(self).sep == old(self).sep,
            final(self).caption == old(self).caption,
            final(self).gap == old(self).gap,
    {
        match &styles.numbering {
            Some(rule) => {
                self.numbering = match rule {
                    Some(n) => Some(n.clone()),
                    None => None,
                };
            },
            None => {},
        }
    }

    /// Produces the anchor this figure numbers itself through: its
    /// counter key, level 1, the supplement resolved against the
    /// localized kind name, and the numbering in force.
    pub fn anchor(&self, styles: &StyleChain) -> (a: AnchorElem)
        ensures
            a.counter == self.counter,
            a.level == 1,
            spec_opt_items(a.supplement) == spec_resolve_supplement(
                self.spec_supplement(*styles),
                spec_local_name(styles.lang),
            ),
            spec_opt_numbering(a.numbering) == self.spec_numbering(*styles),
            self.wf(*styles) ==> a.wf(),
    {
        let name = self.local_name(styles.lang);
        let cfg = match &styles.supplement {
            Some(c) => c,
            None => &self.supplement,
        };
        let supplement = resolve_supplement(cfg, name);
        let effective = match &styles.numbering {
            Some(rule) => rule,
            None => &self.numbering,
        };
        let numbering = match effective {
            Some(n) => Some(n.clone()),
            None => None,
        };
        AnchorElem::new(self.counter, supplement, numbering)
    }
}

/// The caption line a figure renders under its body: the anchor label
/// when a numbering is in force; then — when a caption is present — the
/// separator (only after a non-empty label) and the caption itself.
pub open spec fn spec_cap(
    fig: FigureElem,
    styles: StyleChain,
    log: Seq<CounterUpdateModel>,
) -> Seq<ItemModel> {
    let anchor = if fig.spec_numbering(styles) is Some {
        spec_anchor_items(
            spec_resolve_supplement(fig.spec_supplement(styles), spec_local_name(styles.lang)),
            fig.spec_numbering(styles),
            log,
            1,
        )
    } else {
        Seq::empty()
    };
    match spec_opt_items(fig.caption) {
        Some(c) => anchor + (if anchor.len() > 0 {
            match fig.spec_sep(styles) {
                Some(s) => s,
                None => Seq::empty(),
            }
        } else {
            Seq::empty()
        }) + c,
        None => anchor,
    }
}

/// Everything inside the block a figure renders to: the body, and —
/// when the caption line is non-empty — a weak vertical gap followed by
/// that line. With neither numbering nor caption the body stands alone,
/// unchanged.
pub open spec fn spec_show_items(
    fig: FigureElem,
    styles: StyleChain,
    log: Seq<CounterUpdateModel>,
) -> Seq<ItemModel> {
    let cap = spec_cap(fig, styles, log);
    if cap.len() > 0 {
        fig.body@ + seq![ItemModel::VGap(fig.spec_gap(styles))] + cap
    } else {
        fig.body@
    }
}

impl FigureElem {
    /// Renders the figure. Pure in the resolved style values and the
    /// counter history so far; the one side effect is the counter step
    /// recorded by the anchor when a numbering is in force.
    pub fn show(&self, counter: &mut Counter, styles: &StyleChain) -> (r: Block)
        requires
            self.wf(*styles),
            old(counter).key == self.counter,
        ensures
            !r.breakable,
            r.centered,
            r.body@ == spec_show_items(*self, *styles, old(counter)@),
            final(counter).key == old(counter).key,
            final(counter)@ == (if self.spec_numbering(*styles) is Some {
                old(counter)@.push(CounterUpdateModel::Step(1))
            } else {
                old(counter)@
            }),
    {
        let ghost log0 = counter@;
        let mut realized = self.body.clone();
        let mut cap = Content::empty();

        let effective = match &styles.numbering {
            Some(rule) => rule,
            None => &self.numbering,
        };
        let has_numbering = match effective {
            Some(_) => true,
            None => false,
        };
        if has_numbering {
            let a = self.anchor(styles);
            let shown = a.show(counter);
            cap.append(&shown);
            proof {
                assert(cap@ =~= shown@);
            }
        }
        let ghost anchor_part = cap@;

        match &self.caption {
            Some(caption) => {
                if !cap.is_empty() {
                    let sep = match &styles.sep {
                        Some(s) => s,
                        None => &self.sep,
                    };
                    match sep {
                        Some(s) => cap.append(s),
                        None => {},
                    }
                }
                cap.append(caption);
            },
            None => {},
        }
        proof {
            assert(cap@ =~= spec_cap(*self, *styles, log0));
        }

        if !cap.is_empty() {
            let g = match &styles.gap {
                Some(g) => *g,
                None => self.gap,
            };
            realized.push(Item::VGap(g));
            realized.append(&cap);
            proof {
                assert(realized@ =~= spec_show_items(*self, *styles, log0));
            }
        }
        Block { breakable: false, centered: true, body: realized }
    }
}

/// Law: with neither a numbering nor a caption in force, a figure's
/// rendered block holds its body unchanged — no gap, no caption line.
pub proof fn lemma_show_plain(fig: FigureElem, styles: StyleChain, log: Seq<CounterUpdateModel>)
    requires
        fig.spec_numbering(styles) is None,
        fig.caption is None,
    ensures
        spec_show_items(fig, styles, log) == fig.body@,
{
    assert(spec_cap(fig, styles, log) =~= Seq::<ItemModel>::empty());
}

/// Law: with a numbering but no caption, the rendered block holds the
/// body, the gap, and exactly the anchor label — no separator and no
/// caption content.
pub proof fn lemma_show_numbered_only(
    fig: FigureElem,
    styles: StyleChain,
    log: Seq<CounterUpdateModel>,
)
    requires
        fig.spec_numbering(styles) is Some,
        fig.caption is None,
    ensures
        spec_show_items(fig, styles, log) == fig.body@ + seq![
            ItemModel::VGap(fig.spec_gap(styles)),
        ] + spec_anchor_items(
            spec_resolve_supplement(fig.spec_supplement(styles), spec_local_name(styles.lang)),
            fig.spec_numbering(styles),
            log,
            1,
        ),
{
    assert(spec_number_items(fig.spec_numbering(styles), log, 1).len() == 1);
}

/// Law: with a caption but no numbering, the rendered block holds the
/// body, the gap, and the caption directly — no leading separator; an
/// empty caption leaves the body unchanged.
pub proof fn lemma_show_caption_only(
    fig: FigureElem,
    styles: StyleChain,
    log: Seq<CounterUpdateModel>,
)
    requires
        fig.spec_numbering(styles) is None,
        fig.caption is Some,
    ensures
        spec_show_items(fig, styles, log) == (if fig.caption->Some_0@.len() > 0 {
            fig.body@ + seq![ItemModel::VGap(fig.spec_gap(styles))] + fig.caption->Some_0@
        } else {
            fig.body@
        }),
{
    assert(spec_cap(fig, styles, log) =~= fig.caption->Some_0@);
}

/// Law: with both a numbering and a caption, the caption line is the
/// anchor label, the separator, and the caption — each exactly once, in
/// that order — and the block is the body, the gap, and that line.
pub proof fn lemma_show_both(fig: FigureElem, styles: StyleChain, log: Seq<CounterUpdateModel>)
    requires
        fig.spec_numbering(styles) is Some,
        fig.caption is Some,
    ensures
        spec_cap(fig, styles, log) == spec_anchor_items(
            spec_resolve_supplement(fig.spec_supplement(styles), spec_local_name(styles.lang)),
            fig.spec_numbering(styles),
            log,
            1,
        ) + (match fig.spec_sep(styles) {
            Some(s) => s,
            None => Seq::<ItemModel>::empty(),
        }) + fig.caption->Some_0@,
        spec_show_items(fig, styles, log) == fig.body@ + seq![
            ItemModel::VGap(fig.spec_gap(styles)),
        ] + spec_cap(fig, styles, log),
{
    assert(spec_number_items(fig.spec_numbering(styles), log, 1).len() == 1);
}

} // verus!
