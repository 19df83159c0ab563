use token_input::error::{Errors, Located};
use token_input::memo::Memo;

#[test]
fn new_memo_holds_nothing() {
    let memo: Memo<u8> = Memo::new();
    assert_eq!(memo.get((0, 0)), None);
    assert_eq!(memo.get((5, 1)), None);
}

#[test]
fn memo_holds_the_last_outcome_of_a_key() {
    let mut memo: Memo<u8> = Memo::new();
    memo.insert((5, 1), None);
    assert_eq!(memo.get((5, 1)), Some(&None));
    assert_eq!(memo.get((1, 5)), None);
    memo.insert((5, 1), Some(Located::at(7, 42)));
    memo.insert((5, 2), Some(Located::at(8, 43)));
    assert_eq!(memo.get((5, 1)), Some(&Some(Located::at(7, 42))));
    assert_eq!(memo.get((5, 2)), Some(&Some(Located::at(8, 43))));
    memo.insert((5, 1), None);
    assert_eq!(memo.get((5, 1)), Some(&None));
    assert_eq!(memo.get((5, 2)), Some(&Some(Located::at(8, 43))));
}

#[test]
fn memo_forgets_one_key_only() {
    let mut memo: Memo<u8> = Memo::new();
    memo.insert((1, 1), Some(Located::at(1, 1)));
    memo.insert((2, 2), Some(Located::at(2, 2)));
    memo.remove((1, 1));
    memo.remove((3, 3));
    assert_eq!(memo.get((1, 1)), None);
    assert_eq!(memo.get((2, 2)), Some(&Some(Located::at(2, 2))));
    memo.remove((2, 2));
    assert_eq!(memo.get((2, 2)), None);
}

#[test]
fn errors_start_empty() {
    let errors: Errors<()> = Errors::default();
    assert_eq!(errors.alt, None);
    assert_eq!(errors.secondary, vec![]);
}

#[test]
fn errors_of_a_scope_come_behind() {
    let mut errors: Errors<()> = Errors::default();
    errors.secondary.push(());
    errors.add_alt(Some(Located::at(4, ())));
    errors.add_alt(None);
    let mut scope: Errors<()> = Errors::default();
    scope.secondary.push(());
    scope.secondary.push(());
    scope.add_alt(Some(Located::at(6, ())));
    errors.absorb(scope);
    assert_eq!(errors.alt, Some(Located::at(6, ())));
    assert_eq!(errors.secondary.len(), 3);
    errors.absorb(Errors::default());
    assert_eq!(errors.alt, Some(Located::at(6, ())));
    assert_eq!(errors.secondary.len(), 3);
}
