use kilo::row::{render_chars, EditorRow, KILO_TAB_STOP};
use kilo::text::{chars_to_string, count_char, push_decimal, string_to_chars};

fn row(text: &str) -> EditorRow {
    EditorRow::new(text.to_string())
}

#[test]
fn render_expands_a_tab_to_the_next_tab_stop() {
    let r = row("ab\tcd");
    assert_eq!(r.chars(), "ab\tcd");
    assert_eq!(r.render(), "ab      cd");
    assert_eq!(KILO_TAB_STOP, 8);
}

#[test]
fn render_of_plain_text_is_the_text() {
    let r = row("hello, world");
    assert_eq!(r.render(), "hello, world");
    assert_eq!(r.len(), 12);
}

#[test]
fn render_of_the_empty_row_is_empty() {
    let r = row("");
    assert_eq!(r.len(), 0);
    assert_eq!(r.chars(), "");
    assert_eq!(r.render(), "");
    assert_eq!(r.cursor_x_to_render_cursor_x(0), 0);
    assert_eq!(r.cursor_x_to_render_cursor_x(5), 0);
}

#[test]
fn render_tab_widths() {
    assert_eq!(row("\t").render(), " ".repeat(8));
    assert_eq!(row("\t\t").render(), " ".repeat(16));
    assert_eq!(row("1234567\t").render(), "1234567 ");
    assert_eq!(row("12345678\t").render(), format!("12345678{}", " ".repeat(8)));
    assert_eq!(row("a\tb\tc").render(), "a       b       c");
    assert_eq!(row("\tx").render(), "        x");
}

#[test]
fn render_is_never_shorter_than_the_text() {
    for text in ["", "a", "\t", "a\tb", "\t\t\t", "123456789\tx", "no tabs at all"] {
        let r = row(text);
        assert!(r.render().chars().count() >= r.len());
    }
}

#[test]
fn render_chars_agrees_with_the_row() {
    let chars: Vec<char> = "x\ty".chars().collect();
    let rendered: String = render_chars(&chars).into_iter().collect();
    assert_eq!(rendered, "x       y");
    assert_eq!(EditorRow::from_chars(chars).render(), "x       y");
}

#[test]
fn cursor_to_render_x_exact_values() {
    let r = row("ab\tcd");
    assert_eq!(r.cursor_x_to_render_cursor_x(0), 0);
    assert_eq!(r.cursor_x_to_render_cursor_x(1), 1);
    assert_eq!(r.cursor_x_to_render_cursor_x(2), 2);
    assert_eq!(r.cursor_x_to_render_cursor_x(3), 8);
    assert_eq!(r.cursor_x_to_render_cursor_x(4), 9);
    assert_eq!(r.cursor_x_to_render_cursor_x(5), 10);
    assert_eq!(r.cursor_x_to_render_cursor_x(6), 10);
    assert_eq!(r.cursor_x_to_render_cursor_x(usize::MAX), 10);
    let tabs = row("\t\t");
    assert_eq!(tabs.cursor_x_to_render_cursor_x(1), 8);
    assert_eq!(tabs.cursor_x_to_render_cursor_x(2), 16);
}

#[test]
fn cursor_to_render_x_is_monotonic() {
    for text in ["", "abc", "a\tb\t\tc", "\t", "12345678\t9"] {
        let r = row(text);
        let mut last = 0;
        for x in 0..=r.len() + 2 {
            let column = r.cursor_x_to_render_cursor_x(x);
            assert!(column >= last);
            last = column;
        }
        assert_eq!(last, r.render().chars().count());
    }
}

#[test]
fn cursor_to_render_x_ignores_what_follows_the_cursor() {
    let mut r = row("a\tbc");
    let before: Vec<usize> = (0..=2).map(|x| r.cursor_x_to_render_cursor_x(x)).collect();
    r.insert_char(2, '\t');
    r.append_string("\tmore");
    r.delete_char(3);
    let after: Vec<usize> = (0..=2).map(|x| r.cursor_x_to_render_cursor_x(x)).collect();
    assert_eq!(before, vec![0, 1, 8]);
    assert_eq!(before, after);
}

#[test]
fn insert_char_at_start_middle_and_end() {
    let mut r = row("ac");
    r.insert_char(1, 'b');
    assert_eq!(r.chars(), "abc");
    r.insert_char(0, '>');
    assert_eq!(r.chars(), ">abc");
    r.insert_char(4, '\t');
    assert_eq!(r.chars(), ">abc\t");
    assert_eq!(r.render(), ">abc    ");
    assert_eq!(r.len(), 5);
}

#[test]
fn insert_char_past_the_end_changes_nothing() {
    let mut r = row("ab");
    r.insert_char(3, 'x');
    assert_eq!(r.chars(), "ab");
    assert_eq!(r.render(), "ab");
}

#[test]
fn delete_char_removes_the_character() {
    let mut r = row("a\tb");
    r.delete_char(1);
    assert_eq!(r.chars(), "ab");
    assert_eq!(r.render(), "ab");
    r.delete_char(0);
    assert_eq!(r.chars(), "b");
}

#[test]
fn delete_char_out_of_range_changes_nothing() {
    let mut r = row("ab");
    r.delete_char(2);
    assert_eq!(r.chars(), "ab");
    let mut empty = row("");
    empty.delete_char(0);
    assert_eq!(empty.chars(), "");
}

#[test]
fn insert_then_delete_restores_the_row() {
    for text in ["", "abc", "a\tb", "\t\t"] {
        for c in ['x', '\t', ' '] {
            let len = text.chars().count();
            for at in 0..=len {
                let mut r = row(text);
                let render = r.render();
                r.insert_char(at, c);
                assert_eq!(r.len(), len + 1);
                r.delete_char(at);
                assert_eq!(r.chars(), text);
                assert_eq!(r.render(), render);
            }
        }
    }
}

#[test]
fn split_off_returns_the_suffix() {
    let mut r = row("hello\tworld");
    let tail = r.split_off(5);
    assert_eq!(tail, "\tworld");
    assert_eq!(r.chars(), "hello");
    assert_eq!(r.render(), "hello");
}

#[test]
fn split_off_at_the_ends() {
    let mut r = row("abc");
    assert_eq!(r.split_off(3), "");
    assert_eq!(r.chars(), "abc");
    assert_eq!(r.split_off(0), "abc");
    assert_eq!(r.chars(), "");
    assert_eq!(r.render(), "");
}

#[test]
fn split_off_past_the_end_takes_nothing() {
    let mut r = row("abc");
    assert_eq!(r.split_off(4), "");
    assert_eq!(r.chars(), "abc");
    assert_eq!(r.render(), "abc");
}

#[test]
fn split_then_join_restores_the_row() {
    for text in ["", "abc", "a\tb\tc", "\t"] {
        let len = text.chars().count();
        for k in 0..=len {
            let mut r = row(text);
            let render = r.render();
            let tail = r.split_off(k);
            assert_eq!(r.len(), k);
            r.append_string(&tail);
            assert_eq!(r.chars(), text);
            assert_eq!(r.render(), render);
        }
    }
}

#[test]
fn append_string_and_append_row() {
    let mut r = row("a");
    r.append_string("\tb");
    assert_eq!(r.chars(), "a\tb");
    assert_eq!(r.render(), "a       b");
    r.append_row(&row("\tc"));
    assert_eq!(r.chars(), "a\tb\tc");
    assert_eq!(r.render(), "a       b       c");
    r.append_string("");
    assert_eq!(r.chars(), "a\tb\tc");
}

#[test]
fn update_render_keeps_the_row() {
    let mut r = row("x\ty");
    r.update_render();
    assert_eq!(r.chars(), "x\ty");
    assert_eq!(r.render(), "x       y");
}

#[test]
fn row_counts_characters_not_bytes() {
    let mut r = row("héllo");
    assert_eq!(r.len(), 5);
    r.insert_char(2, 'ř');
    assert_eq!(r.chars(), "héřllo");
    r.delete_char(1);
    assert_eq!(r.chars(), "hřllo");
    assert_eq!(r.as_chars().len(), 5);
    assert_eq!(r.as_render().len(), 5);
}

#[test]
fn strings_and_characters_convert_both_ways() {
    assert_eq!(string_to_chars("a\tž"), vec!['a', '\t', 'ž']);
    assert_eq!(string_to_chars(""), Vec::<char>::new());
    assert_eq!(chars_to_string(&vec!['o', 'k', '!']), "ok!");
    assert_eq!(chars_to_string(&vec![]), "");
}

#[test]
fn decimal_numerals() {
    let text = |n: u128| -> String {
        let mut out = vec!['#'];
        push_decimal(&mut out, n);
        out.into_iter().skip(1).collect()
    };
    assert_eq!(text(0), "0");
    assert_eq!(text(7), "7");
    assert_eq!(text(10), "10");
    assert_eq!(text(1234567890), "1234567890");
    assert_eq!(text(u128::MAX), "340282366920938463463374607431768211455");
}

#[test]
fn count_char_counts_occurrences() {
    assert_eq!(count_char(&string_to_chars("a\nb\n\nc"), '\n'), 3);
    assert_eq!(count_char(&string_to_chars(""), '\n'), 0);
    assert_eq!(count_char(&string_to_chars("abc"), 'x'), 0);
}
