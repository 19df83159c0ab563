use token_input::input::{BorrowInput, Input, SliceInput};
use token_input::span::{SimpleSpan, Span};
use token_input::spanned::Spanned;

fn pairs() -> Vec<(char, SimpleSpan<usize>)> {
    vec![
        ('a', SimpleSpan { start: 10, end: 11 }),
        ('b', SimpleSpan { start: 14, end: 17 }),
        ('c', SimpleSpan { start: 20, end: 22 }),
    ]
}

#[test]
fn simple_span_parts() {
    let span = <SimpleSpan<usize> as Span>::new((), 3..9);
    assert_eq!(span, SimpleSpan { start: 3, end: 9 });
    assert_eq!(Span::start(&span), 3);
    assert_eq!(Span::end(&span), 9);
    assert_eq!(Span::context(&span), ());
}

#[test]
fn span_with_context_parts() {
    let span = <(u8, SimpleSpan<usize>) as Span>::new(4, 3..9);
    assert_eq!(span, (4, SimpleSpan { start: 3, end: 9 }));
    assert_eq!(Span::start(&span), 3);
    assert_eq!(Span::end(&span), 9);
    assert_eq!(Span::context(&span), 4);
}

#[test]
fn spanned_hands_out_the_tokens_alone() {
    let pairs = pairs();
    let input = pairs.as_slice().spanned(SimpleSpan { start: 30, end: 30 });
    assert_eq!(Input::start(&input), 0);
    assert_eq!(Input::next(&input, 0), (1, Some('a')));
    assert_eq!(Input::next(&input, 1), (2, Some('b')));
    assert_eq!(Input::next(&input, 2), (3, Some('c')));
    assert_eq!(Input::next(&input, 3), (3, None));
    assert_eq!(BorrowInput::next_ref(&input, 1), (2, Some(&'b')));
    assert_eq!(BorrowInput::next_ref(&input, 3), (3, None));
}

#[test]
fn spanned_span_is_made_of_the_spans_at_both_ends() {
    let pairs = pairs();
    let input = pairs.as_slice().spanned(SimpleSpan { start: 30, end: 30 });
    assert_eq!(Input::span(&input, 0..2), SimpleSpan { start: 10, end: 17 });
    assert_eq!(Input::span(&input, 1..3), SimpleSpan { start: 14, end: 22 });
    assert_eq!(Input::span(&input, 0..3), SimpleSpan { start: 10, end: 22 });
    assert_eq!(Input::span(&input, 1..2), SimpleSpan { start: 14, end: 17 });
}

#[test]
fn spanned_span_at_the_end_of_input() {
    let pairs = pairs();
    let input = pairs.as_slice().spanned(SimpleSpan { start: 30, end: 31 });
    assert_eq!(Input::span(&input, 3..3), SimpleSpan { start: 30, end: 22 });
    let empty: &[(char, SimpleSpan<usize>)] = &[];
    let input = empty.spanned(SimpleSpan { start: 30, end: 31 });
    assert_eq!(Input::span(&input, 0..0), SimpleSpan { start: 30, end: 30 });
}

#[test]
fn spanned_span_of_nothing_at_the_start() {
    let pairs = pairs();
    let input = pairs.as_slice().spanned(SimpleSpan { start: 30, end: 30 });
    assert_eq!(Input::span(&input, 0..0), SimpleSpan { start: 10, end: 11 });
}

#[test]
fn spanned_keeps_offsets_and_slices_of_the_pairs() {
    let pairs = pairs();
    let input = pairs.as_slice().spanned(SimpleSpan { start: 30, end: 30 });
    type Wrapped<'a> = token_input::spanned::SpannedInput<
        char,
        SimpleSpan<usize>,
        &'a [(char, SimpleSpan<usize>)],
    >;
    assert_eq!(<Wrapped as Input>::prev(2), 1);
    assert_eq!(<Wrapped as Input>::prev(0), 0);
    assert_eq!(<Wrapped as Input>::index_of(2), 2);
    assert_eq!(SliceInput::slice(&input, 1..3), &pairs[1..3]);
    assert_eq!(SliceInput::slice_from(&input, 2), &pairs[2..]);
}

#[test]
fn context_is_put_in_front_of_each_span() {
    let text: &str = "a\u{e9}z";
    let input = text.with_context("main.txt");
    assert_eq!(Input::start(&input), 0);
    assert_eq!(Input::next(&input, 0), (1, Some('a')));
    assert_eq!(Input::next(&input, 1), (3, Some('\u{e9}')));
    assert_eq!(Input::next(&input, 4), (4, None));
    assert_eq!(Input::span(&input, 1..3), ("main.txt", SimpleSpan { start: 1, end: 3 }));
    assert_eq!(SliceInput::slice(&input, 1..4), "\u{e9}z");
    assert_eq!(SliceInput::slice_from(&input, 3), "z");
}

#[test]
fn context_wrapper_lends_tokens_of_a_slice() {
    let tokens: &[u8] = &[5, 6];
    let input = tokens.with_context(9u32);
    assert_eq!(BorrowInput::next_ref(&input, 0), (1, Some(&5)));
    assert_eq!(BorrowInput::next_ref(&input, 2), (2, None));
    assert_eq!(Input::span(&input, 0..2), (9, SimpleSpan { start: 0, end: 2 }));
    type Wrapped<'a> = token_input::with_context::WithContext<u32, &'a [u8]>;
    assert_eq!(<Wrapped as Input>::prev(2), 1);
    assert_eq!(<Wrapped as Input>::index_of(1), 1);
}
