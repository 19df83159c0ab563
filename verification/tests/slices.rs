use token_input::input::{BorrowInput, Input, SliceInput};
use token_input::span::SimpleSpan;

#[test]
fn slice_is_read_by_index() {
    let tokens: &[u8] = &[10, 20, 30];
    assert_eq!(Input::start(&tokens), 0);
    assert_eq!(Input::next(&tokens, 0), (1, Some(10)));
    assert_eq!(Input::next(&tokens, 1), (2, Some(20)));
    assert_eq!(Input::next(&tokens, 2), (3, Some(30)));
    assert_eq!(Input::next(&tokens, 3), (3, None));
    assert_eq!(Input::next(&tokens, 3), (3, None));
}

#[test]
fn slice_lends_its_tokens() {
    let tokens: &[u32] = &[7, 8];
    let (offset, first) = BorrowInput::next_ref(&tokens, 0);
    assert_eq!(offset, 1);
    assert!(std::ptr::eq(first.unwrap(), &tokens[0]));
    let (offset, second) = BorrowInput::next_ref(&tokens, offset);
    assert_eq!((offset, second), (2, Some(&8)));
    assert_eq!(BorrowInput::next_ref(&tokens, 2), (2, None));
}

#[test]
fn slice_span_and_prev() {
    let tokens: &[u8] = &[1, 2, 3, 4];
    assert_eq!(Input::span(&tokens, 1..3), SimpleSpan { start: 1, end: 3 });
    assert_eq!(<&[u8] as Input>::prev(3), 2);
    assert_eq!(<&[u8] as Input>::prev(0), 0);
    assert_eq!(<&[u8] as Input>::index_of(3), 3);
}

#[test]
fn slice_of_a_slice() {
    let tokens: &[u8] = &[1, 2, 3, 4];
    assert_eq!(SliceInput::slice(&tokens, 1..3), &[2, 3]);
    assert_eq!(SliceInput::slice(&tokens, 2..2), &[] as &[u8]);
    assert_eq!(SliceInput::slice_from(&tokens, 1), &[2, 3, 4]);
    assert_eq!(SliceInput::slice_from(&tokens, 4), &[] as &[u8]);
}

#[test]
fn empty_slice_has_no_token() {
    let tokens: &[char] = &[];
    assert_eq!(Input::next(&tokens, 0), (0, None));
}

#[test]
fn array_is_read_by_index() {
    let tokens: &[char; 2] = &['x', 'y'];
    assert_eq!(Input::start(&tokens), 0);
    assert_eq!(Input::next(&tokens, 0), (1, Some('x')));
    assert_eq!(Input::next(&tokens, 1), (2, Some('y')));
    assert_eq!(Input::next(&tokens, 2), (2, None));
    assert_eq!(BorrowInput::next_ref(&tokens, 1), (2, Some(&'y')));
    assert_eq!(BorrowInput::next_ref(&tokens, 2), (2, None));
}

#[test]
fn array_span_slice_and_prev() {
    let tokens: &[u8; 4] = &[1, 2, 3, 4];
    assert_eq!(Input::span(&tokens, 0..4), SimpleSpan { start: 0, end: 4 });
    assert_eq!(SliceInput::slice(&tokens, 1..3), &[2, 3]);
    assert_eq!(SliceInput::slice_from(&tokens, 3), &[4]);
    assert_eq!(<&[u8; 4] as Input>::prev(4), 3);
    assert_eq!(<&[u8; 4] as Input>::prev(0), 0);
    assert_eq!(<&[u8; 4] as Input>::index_of(2), 2);
}
