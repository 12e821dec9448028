use figure_numbering::counter::{Counter, CounterKey};
use figure_numbering::numbering::{Numbering, NumberingPattern};

fn numbering(text: &str) -> Numbering {
    match NumberingPattern::from_str(text) {
        Ok(p) => Numbering::Pattern(p),
        Err(_) => panic!("pattern text should parse"),
    }
}

#[test]
fn fresh_counter_steps_monotonically() {
    let mut c = Counter::of(CounterKey::Figure);
    c.step(1);
    assert_eq!(c.value(), vec![1]);
    c.step(1);
    assert_eq!(c.value(), vec![2]);
    c.step(1);
    assert_eq!(c.value(), vec![3]);
}

#[test]
fn deeper_step_starts_level_at_one() {
    let mut c = Counter::of(CounterKey::Figure);
    c.step(1);
    c.step(2);
    assert_eq!(c.value(), vec![1, 1]);
}

#[test]
fn shallower_step_resets_deeper_levels() {
    let mut c = Counter::of(CounterKey::Figure);
    c.step(1);
    c.step(2);
    c.step(1);
    assert_eq!(c.value(), vec![2]);
}

#[test]
fn stepping_an_unreached_level_pads_with_zero() {
    let mut c = Counter::of(CounterKey::Custom(7));
    c.step(2);
    assert_eq!(c.value(), vec![0, 1]);
}

#[test]
fn value_at_replays_history_up_to_the_location() {
    let mut c = Counter::of(CounterKey::Figure);
    c.step(1);
    c.step(1);
    c.step(2);
    assert_eq!(c.value_at(0), Vec::<u64>::new());
    assert_eq!(c.value_at(1), vec![1]);
    assert_eq!(c.value_at(2), vec![2]);
    assert_eq!(c.value_at(3), vec![2, 1]);
    assert_eq!(c.len(), 3);
}

#[test]
fn assignment_replaces_the_vector() {
    let mut c = Counter::of(CounterKey::Figure);
    c.step(1);
    c.set_to(vec![4, 7]);
    assert_eq!(c.value(), vec![4, 7]);
    c.step(2);
    assert_eq!(c.value(), vec![4, 8]);
    c.step(1);
    assert_eq!(c.value(), vec![5]);
}

#[test]
fn display_formats_the_current_value() {
    let mut c = Counter::of(CounterKey::Figure);
    c.step(1);
    c.step(1);
    c.step(1);
    assert_eq!(c.display(&numbering("1"), false), "3");
}

#[test]
fn display_reversed_renders_deepest_level_first() {
    let mut c = Counter::of(CounterKey::Figure);
    c.set_to(vec![2, 5]);
    assert_eq!(c.display(&numbering("1.1"), false), "2.5");
    assert_eq!(c.display(&numbering("1.1"), true), "5.2");
}
