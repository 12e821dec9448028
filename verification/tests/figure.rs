use figure_numbering::anchor::AnchorElem;
use figure_numbering::content::{Content, Item};
use figure_numbering::counter::{Counter, CounterKey};
use figure_numbering::figure::{FigureElem, DEFAULT_GAP};
use figure_numbering::lang::Lang;
use figure_numbering::numbering::{Numbering, NumberingPattern};
use figure_numbering::styles::StyleChain;
use figure_numbering::supplement::SupplementConfig;

fn text(s: &str) -> Content {
    Content::text(s.to_string())
}

fn numbering(text: &str) -> Numbering {
    match NumberingPattern::from_str(text) {
        Ok(p) => Numbering::Pattern(p),
        Err(_) => panic!("pattern text should parse"),
    }
}

fn shape(items: &[Item]) -> Vec<String> {
    items
        .iter()
        .map(|it| match it {
            Item::Text(s) => format!("text:{}", s),
            Item::VGap(g) => format!("gap:{}", g),
        })
        .collect()
}

fn fresh_counter() -> Counter {
    Counter::of(CounterKey::Figure)
}

#[test]
fn plain_figure_renders_its_body_unchanged() {
    let mut fig = FigureElem::new(text("diagram"));
    fig.numbering = None;
    let mut counter = fresh_counter();
    let block = fig.show(&mut counter, &StyleChain::plain(Lang::English));
    assert!(!block.breakable);
    assert!(block.centered);
    assert_eq!(shape(&block.body.items), vec!["text:diagram"]);
    assert_eq!(counter.len(), 0);
}

#[test]
fn numbered_figure_without_caption_renders_anchor_only() {
    let fig = FigureElem::new(text("diagram"));
    let mut counter = fresh_counter();
    let block = fig.show(&mut counter, &StyleChain::plain(Lang::English));
    assert_eq!(
        shape(&block.body.items),
        vec![
            "text:diagram".to_string(),
            format!("gap:{}", DEFAULT_GAP),
            "text:Figure".to_string(),
            "text:\u{a0}".to_string(),
            "text:1".to_string(),
        ]
    );
}

#[test]
fn captioned_figure_without_numbering_has_no_separator() {
    let mut fig = FigureElem::new(text("diagram"));
    fig.numbering = None;
    fig.caption = Some(text("The pipeline."));
    let mut counter = fresh_counter();
    let block = fig.show(&mut counter, &StyleChain::plain(Lang::English));
    assert_eq!(
        shape(&block.body.items),
        vec![
            "text:diagram".to_string(),
            format!("gap:{}", DEFAULT_GAP),
            "text:The pipeline.".to_string(),
        ]
    );
    assert_eq!(counter.len(), 0);
}

#[test]
fn numbered_captioned_figure_renders_anchor_separator_caption() {
    let mut fig = FigureElem::new(text("diagram"));
    fig.caption = Some(text("The pipeline."));
    let mut counter = fresh_counter();
    let block = fig.show(&mut counter, &StyleChain::plain(Lang::English));
    assert_eq!(
        shape(&block.body.items),
        vec![
            "text:diagram".to_string(),
            format!("gap:{}", DEFAULT_GAP),
            "text:Figure".to_string(),
            "text:\u{a0}".to_string(),
            "text:1".to_string(),
            "text:: ".to_string(),
            "text:The pipeline.".to_string(),
        ]
    );
}

#[test]
fn figures_sharing_a_counter_number_sequentially() {
    let first = FigureElem::new(text("one"));
    let second = FigureElem::new(text("two"));
    let styles = StyleChain::plain(Lang::English);
    let mut counter = fresh_counter();
    let a = first.show(&mut counter, &styles);
    let b = second.show(&mut counter, &styles);
    assert_eq!(shape(&a.body.items)[4], "text:1");
    assert_eq!(shape(&b.body.items)[4], "text:2");
    assert_eq!(counter.value(), vec![2]);
}

#[test]
fn german_language_uses_the_mapped_name() {
    let fig = FigureElem::new(text("diagram"));
    let mut counter = fresh_counter();
    let block = fig.show(&mut counter, &StyleChain::plain(Lang::German));
    assert_eq!(shape(&block.body.items)[2], "text:Abbildung");
}

#[test]
fn unsupported_language_falls_back_to_english() {
    let fig = FigureElem::new(text("diagram"));
    assert_eq!(fig.local_name(Lang::French), "Figure");
    assert_eq!(fig.local_name(Lang::Spanish), "Figure");
    assert_eq!(fig.local_name(Lang::German), "Abbildung");
    assert_eq!(fig.local_name(Lang::English), "Figure");
    let mut counter = fresh_counter();
    let block = fig.show(&mut counter, &StyleChain::plain(Lang::Spanish));
    assert_eq!(shape(&block.body.items)[2], "text:Figure");
}

#[test]
fn explicit_supplement_is_used_unchanged() {
    let mut fig = FigureElem::new(text("diagram"));
    fig.supplement = SupplementConfig::Explicit(text("Fig."));
    let mut counter = fresh_counter();
    let block = fig.show(&mut counter, &StyleChain::plain(Lang::English));
    assert_eq!(shape(&block.body.items)[2], "text:Fig.");
    assert_eq!(shape(&block.body.items)[3], "text:\u{a0}");
}

#[test]
fn suppressed_supplement_leaves_only_the_number() {
    let mut fig = FigureElem::new(text("diagram"));
    fig.supplement = SupplementConfig::Suppressed;
    let mut counter = fresh_counter();
    let block = fig.show(&mut counter, &StyleChain::plain(Lang::English));
    assert_eq!(
        shape(&block.body.items),
        vec![
            "text:diagram".to_string(),
            format!("gap:{}", DEFAULT_GAP),
            "text:1".to_string(),
        ]
    );
}

#[test]
fn empty_explicit_supplement_emits_no_nonbreaking_space() {
    let mut fig = FigureElem::new(text("diagram"));
    fig.supplement = SupplementConfig::Explicit(Content::empty());
    let mut counter = fresh_counter();
    let block = fig.show(&mut counter, &StyleChain::plain(Lang::English));
    assert_eq!(
        shape(&block.body.items),
        vec![
            "text:diagram".to_string(),
            format!("gap:{}", DEFAULT_GAP),
            "text:1".to_string(),
        ]
    );
}

#[test]
fn style_rule_can_switch_numbering_off() {
    let mut fig = FigureElem::new(text("diagram"));
    fig.caption = Some(text("Caption."));
    let mut styles = StyleChain::plain(Lang::English);
    styles.numbering = Some(None);
    let mut counter = fresh_counter();
    let block = fig.show(&mut counter, &styles);
    assert_eq!(
        shape(&block.body.items),
        vec![
            "text:diagram".to_string(),
            format!("gap:{}", DEFAULT_GAP),
            "text:Caption.".to_string(),
        ]
    );
    assert_eq!(counter.len(), 0);
}

#[test]
fn style_rules_override_separator_and_gap() {
    let mut fig = FigureElem::new(text("diagram"));
    fig.caption = Some(text("Caption."));
    let mut styles = StyleChain::plain(Lang::English);
    styles.sep = Some(Some(text(" - ")));
    styles.gap = Some(300);
    let mut counter = fresh_counter();
    let block = fig.show(&mut counter, &styles);
    assert_eq!(
        shape(&block.body.items),
        vec![
            "text:diagram".to_string(),
            "gap:300".to_string(),
            "text:Figure".to_string(),
            "text:\u{a0}".to_string(),
            "text:1".to_string(),
            "text: - ".to_string(),
            "text:Caption.".to_string(),
        ]
    );
}

#[test]
fn synthesis_materializes_the_style_numbering() {
    let mut fig = FigureElem::new(text("diagram"));
    let mut synth_styles = StyleChain::plain(Lang::English);
    synth_styles.numbering = Some(Some(numbering("i")));
    fig.synthesize(&synth_styles);
    let mut counter = fresh_counter();
    counter.step(1);
    counter.step(1);
    counter.step(1);
    let block = fig.show(&mut counter, &StyleChain::plain(Lang::English));
    assert_eq!(shape(&block.body.items)[4], "text:iv");
}

#[test]
fn anchor_without_numbering_leaves_the_counter_alone() {
    let anchor = AnchorElem::new(CounterKey::Figure, Some(text("Figure")), None);
    let mut counter = fresh_counter();
    let content = anchor.show(&mut counter);
    assert_eq!(
        shape(&content.items),
        vec!["text:Figure".to_string(), "text:\u{a0}".to_string()]
    );
    assert_eq!(counter.len(), 0);
}

#[test]
fn anchor_with_numbering_steps_then_displays() {
    let anchor = AnchorElem::new(CounterKey::Figure, None, Some(numbering("1")));
    let mut counter = fresh_counter();
    counter.step(1);
    let content = anchor.show(&mut counter);
    assert_eq!(shape(&content.items), vec!["text:2".to_string()]);
    assert_eq!(counter.len(), 2);
}

#[test]
fn figure_anchor_resolves_supplement_and_numbering() {
    let fig = FigureElem::new(text("diagram"));
    let anchor = fig.anchor(&StyleChain::plain(Lang::German));
    assert_eq!(anchor.level, 1);
    assert!(matches!(anchor.counter, CounterKey::Figure));
    match &anchor.supplement {
        Some(c) => assert_eq!(shape(&c.items), vec!["text:Abbildung".to_string()]),
        None => panic!("automatic supplement should resolve to content"),
    }
    assert!(anchor.numbering.is_some());
}

#[test]
fn anchor_synthesis_changes_nothing() {
    let mut anchor = AnchorElem::new(CounterKey::Custom(3), None, Some(numbering("1")));
    anchor.synthesize(&StyleChain::plain(Lang::English));
    assert_eq!(anchor.level, 1);
    assert!(matches!(anchor.counter, CounterKey::Custom(3)));
    assert!(anchor.supplement.is_none());
    assert!(anchor.numbering.is_some());
}
