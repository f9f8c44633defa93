use mire::ChainExt;
use mire::Error;
use mire::Failure;

fn leaf(token: u64, text: &str) -> Failure {
    Failure {
        token,
        display: text.to_string(),
        debug: text.to_string(),
        source: None,
    }
}

fn wrapping(token: u64, text: &str, source: Failure) -> Failure {
    Failure {
        token,
        display: text.to_string(),
        debug: text.to_string(),
        source: Some(Box::new(source)),
    }
}

fn displays_of(e: &Error) -> Vec<String> {
    let mut out = Vec::new();
    let mut chain = e.chain();
    while let Some(f) = chain.next() {
        out.push(f.display.clone());
    }
    out
}

#[test]
fn message_error_chain_has_length_one() {
    let e = Error::msg("boom");
    assert_eq!(displays_of(&e), vec!["boom".to_string()]);
}

#[test]
fn sourceless_failure_chain_has_length_one() {
    let e = Error::new(leaf(3, "just me"));
    assert_eq!(displays_of(&e), vec!["just me".to_string()]);
}

#[test]
fn one_cause_gives_length_two_self_first() {
    let e = Error::new(wrapping(2, "outer", leaf(1, "inner")));
    assert_eq!(displays_of(&e), vec!["outer".to_string(), "inner".to_string()]);
}

#[test]
fn depth_three_chain_yields_all_links_in_order() {
    let c = leaf(3, "C");
    let b = wrapping(2, "B", c);
    let a = wrapping(1, "A", b);
    let e = Error::new(a);
    assert_eq!(
        displays_of(&e),
        vec!["A".to_string(), "B".to_string(), "C".to_string()]
    );
}

#[test]
fn traversal_is_restartable_with_identical_contents() {
    let e = Error::new(wrapping(2, "first", leaf(1, "second")));
    let once = displays_of(&e);
    let again = displays_of(&e);
    assert_eq!(once, again);
    assert_eq!(once, vec!["first".to_string(), "second".to_string()]);
}

#[test]
fn exhausted_traversal_stays_exhausted() {
    let e = Error::msg("done");
    let mut chain = e.chain();
    assert!(chain.next().is_some());
    assert!(chain.next().is_none());
    assert!(chain.next().is_none());
}

#[test]
fn failure_chain_starts_at_the_failure_itself() {
    let f = wrapping(2, "top", leaf(1, "below"));
    let mut chain = f.chain();
    assert_eq!(chain.next().map(|g| g.display.as_str()), Some("top"));
    assert_eq!(chain.next().map(|g| g.display.as_str()), Some("below"));
    assert!(chain.next().is_none());
}

#[test]
fn chain_head_borrows_the_source() {
    let e = Error::new(leaf(5, "head"));
    let head = e.chain_head().expect("a wrapped failure is always there");
    assert_eq!(head.display, "head");
}
