use token_input::input::{Input, SliceInput};
use token_input::span::SimpleSpan;
use token_input::text::utf8_width;

#[test]
fn two_letters_are_read_one_by_one() {
    let text: &str = "ab";
    assert_eq!(Input::start(&text), 0);
    assert_eq!(Input::next(&text, 0), (1, Some('a')));
    assert_eq!(Input::next(&text, 1), (2, Some('b')));
    assert_eq!(Input::next(&text, 2), (2, None));
    assert_eq!(Input::next(&text, 2), (2, None));
    let span = Input::span(&text, 0..2);
    assert_eq!(span, SimpleSpan { start: 0, end: 2 });
    assert_eq!(SliceInput::slice(&text, span.start..span.end), "ab");
    assert_eq!(<&str as Input>::prev(2), 1);
}

#[test]
fn prev_stops_at_the_start() {
    assert_eq!(<&str as Input>::prev(0), 0);
    assert_eq!(<&str as Input>::prev(1), 0);
    assert_eq!(<&str as Input>::prev(7), 6);
}

#[test]
fn index_of_a_text_offset_is_the_offset() {
    assert_eq!(<&str as Input>::index_of(0), 0);
    assert_eq!(<&str as Input>::index_of(5), 5);
}

#[test]
fn empty_text_has_no_token() {
    let text: &str = "";
    assert_eq!(Input::start(&text), 0);
    assert_eq!(Input::next(&text, 0), (0, None));
}

#[test]
fn offsets_skip_the_bytes_of_a_character() {
    let text: &str = "a\u{e9}\u{20ac}\u{1f600}z";
    assert_eq!(Input::next(&text, 0), (1, Some('a')));
    assert_eq!(Input::next(&text, 1), (3, Some('\u{e9}')));
    assert_eq!(Input::next(&text, 3), (6, Some('\u{20ac}')));
    assert_eq!(Input::next(&text, 6), (10, Some('\u{1f600}')));
    assert_eq!(Input::next(&text, 10), (11, Some('z')));
    assert_eq!(Input::next(&text, 11), (11, None));
}

#[test]
fn offsets_never_go_back() {
    let text: &str = "h\u{e9}llo \u{4e16}\u{754c}";
    let mut offset = Input::start(&text);
    let mut read = String::new();
    loop {
        let (next, token) = Input::next(&text, offset);
        assert!(next >= offset);
        match token {
            Some(c) => {
                assert!(next > offset);
                read.push(c);
            }
            None => {
                assert_eq!(next, offset);
                break;
            }
        }
        offset = next;
    }
    assert_eq!(read, text);
    assert_eq!(offset, text.len());
}

#[test]
fn width_of_each_kind_of_character() {
    assert_eq!(utf8_width('a'), 1);
    assert_eq!(utf8_width('\u{7f}'), 1);
    assert_eq!(utf8_width('\u{80}'), 2);
    assert_eq!(utf8_width('\u{7ff}'), 2);
    assert_eq!(utf8_width('\u{800}'), 3);
    assert_eq!(utf8_width('\u{ffff}'), 3);
    assert_eq!(utf8_width('\u{10000}'), 4);
    assert_eq!(utf8_width('\u{10ffff}'), 4);
}

#[test]
fn slices_of_text() {
    let text: &str = "a\u{e9}\u{20ac}z";
    assert_eq!(SliceInput::slice(&text, 1..6), "\u{e9}\u{20ac}");
    assert_eq!(SliceInput::slice(&text, 0..0), "");
    assert_eq!(SliceInput::slice(&text, 7..7), "");
    assert_eq!(SliceInput::slice(&text, 0..7), text);
    assert_eq!(SliceInput::slice_from(&text, 3), "\u{20ac}z");
    assert_eq!(SliceInput::slice_from(&text, 7), "");
}

#[test]
fn span_covers_the_slice_it_was_made_for() {
    let text: &str = "let \u{3c0} = 3";
    let (after_let, _) = Input::next(&text, 3);
    let (after_pi, token) = Input::next(&text, after_let);
    assert_eq!(token, Some('\u{3c0}'));
    let span = Input::span(&text, after_let..after_pi);
    assert_eq!(span, SimpleSpan { start: 4, end: 6 });
    assert_eq!(
        SliceInput::slice(&text, span.start..span.end),
        SliceInput::slice(&text, after_let..after_pi)
    );
    assert_eq!(SliceInput::slice(&text, span.start..span.end), "\u{3c0}");
}
