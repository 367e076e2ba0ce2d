use raytrace::fx::Fx;
use raytrace::grammar::Grammar;

fn grammar(start: &str, rules: Vec<(char, &str)>, steps: usize) -> Grammar {
    Grammar {
        angle: Fx::from_int(90),
        steps,
        start: String::from(start),
        rules: rules.into_iter().map(|(c, s)| (c, String::from(s))).collect(),
    }
}

#[test]
fn expand_zero_steps_is_the_start_string() {
    let g = grammar("F+F", vec![('F', "FF")], 0);
    assert_eq!(g.expand(), "F+F");
}

#[test]
fn expand_applies_rules_simultaneously() {
    let g = grammar("A", vec![('A', "AB"), ('B', "A")], 3);
    assert_eq!(g.expand(), "ABAAB");
}

#[test]
fn expand_keeps_symbols_without_a_rule() {
    let g = grammar("AB", vec![('B', "C")], 1);
    assert_eq!(g.expand(), "AC");
}

#[test]
fn expand_first_matching_rule_wins() {
    let g = grammar("A", vec![('A', "X"), ('A', "Y")], 1);
    assert_eq!(g.expand(), "X");
}

#[test]
fn expand_grows_geometrically() {
    let g = grammar("F", vec![('F', "FF")], 4);
    assert_eq!(g.expand(), "FFFFFFFFFFFFFFFF");
}
