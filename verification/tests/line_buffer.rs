use prompt_line::segment::{
    blank, index_at, join_range, measure, range_columns, run_length, space_char, text_columns,
};
use prompt_line::{Command, Directive, LayoutError, Outcome, TerminalBuffer};

fn line(text: &str, column: u16) -> TerminalBuffer<'static> {
    let mut buf = TerminalBuffer::new("> ", None);
    buf.refresh(text, (column, 0));
    buf
}

fn repaint(prefix: &str, shown: &str, position: (u16, u16)) -> Vec<Directive> {
    vec![
        Directive::MoveTo(0, position.1),
        Directive::ClearLine,
        Directive::Write(prefix.to_string()),
        Directive::Write(shown.to_string()),
        Directive::MoveTo(position.0, position.1),
        Directive::Flush,
    ]
}

#[test]
fn new_buffer_is_empty() {
    let buf = TerminalBuffer::new("> ", None);
    assert_eq!(buf.buffer(), "");
    assert_eq!(buf.prefix_columns(), 2);
    assert_eq!(buf.buffer_columns(), 0);
    assert_eq!(buf.position(), (0, 0));
}

#[test]
fn prefix_is_measured_in_columns() {
    let buf = TerminalBuffer::new("世> ", None);
    assert_eq!(buf.prefix_columns(), 4);
}

#[test]
fn columns_sum_grapheme_widths() {
    let buf = line("a世e\u{301}", 2);
    assert_eq!(buf.buffer().len(), 7);
    assert_eq!(buf.buffer().chars().count(), 4);
    assert_eq!(buf.buffer_columns(), 4);
}

#[test]
fn end_pos_after_narrow_text() {
    let mut buf = TerminalBuffer::new("> ", None);
    buf.set_size((80, 24));
    buf.set_position((2, 7));
    assert_eq!(buf.end_pos("a"), Ok((3, 7)));
}

#[test]
fn end_pos_after_wide_text() {
    let mut buf = TerminalBuffer::new("> ", None);
    buf.set_size((80, 24));
    assert_eq!(buf.end_pos("世"), Ok((4, 0)));
}

#[test]
fn end_pos_needs_room() {
    let mut buf = TerminalBuffer::new("> ", None);
    buf.set_size((5, 24));
    assert_eq!(buf.end_pos("ab"), Ok((4, 0)));
    assert_eq!(buf.end_pos("abc"), Err(LayoutError::Unsupported));
    assert_eq!(buf.end_pos("世界"), Err(LayoutError::Unsupported));
}

#[test]
fn end_pos_without_a_size() {
    let buf = TerminalBuffer::new("> ", None);
    assert_eq!(buf.end_pos(""), Err(LayoutError::Unsupported));
}

#[test]
fn write_char_appends() {
    let mut buf = TerminalBuffer::new("> ", None);
    buf.set_position((2, 0));
    let script = buf.write_char('a');
    assert_eq!(buf.buffer(), "a");
    assert_eq!(buf.position(), (3, 0));
    assert_eq!(script, repaint("> ", "a", (3, 0)));
}

#[test]
fn write_char_at_start() {
    let mut buf = line("ab", 2);
    buf.write_char('x');
    assert_eq!(buf.buffer(), "xab");
    assert_eq!(buf.position(), (3, 0));
}

#[test]
fn write_char_mid_buffer() {
    let mut buf = line("ab", 3);
    let script = buf.write_char('x');
    assert_eq!(buf.buffer(), "axb");
    assert_eq!(buf.position(), (4, 0));
    assert_eq!(buf.buffer_columns(), 3);
    assert_eq!(script, repaint("> ", "axb", (4, 0)));
}

#[test]
fn write_char_between_wide_graphemes() {
    let mut buf = line("世界", 4);
    buf.write_char('x');
    assert_eq!(buf.buffer(), "世x界");
    assert_eq!(buf.position(), (5, 0));
    assert_eq!(buf.buffer_columns(), 5);
}

#[test]
fn write_char_inside_wide_grapheme_goes_before_it() {
    let mut buf = line("世界", 5);
    buf.write_char('x');
    assert_eq!(buf.buffer(), "世x界");
}

#[test]
fn write_char_with_cursor_past_the_end() {
    let mut buf = line("ab", 40);
    buf.write_char('x');
    assert_eq!(buf.buffer(), "abx");
    assert_eq!(buf.position(), (5, 0));
}

#[test]
fn write_char_with_cursor_in_the_prefix() {
    let mut buf = line("ab", 0);
    buf.write_char('x');
    assert_eq!(buf.buffer(), "xab");
    assert_eq!(buf.position(), (3, 0));
}

#[test]
fn erase_before_one() {
    let mut buf = line("abc", 4);
    let script = buf.erase_before(1);
    assert_eq!(buf.buffer(), "ac");
    assert_eq!(buf.position(), (3, 0));
    assert_eq!(script, repaint("> ", "ac", (3, 0)));
}

#[test]
fn erase_before_clamps_to_what_exists() {
    let mut buf = line("ab", 4);
    buf.erase_before(5);
    assert_eq!(buf.buffer(), "");
    assert_eq!(buf.position(), (2, 0));
    assert_eq!(buf.buffer_columns(), 0);
}

#[test]
fn erase_before_keeps_what_follows_the_cursor() {
    let mut buf = line("ab", 3);
    buf.erase_before(5);
    assert_eq!(buf.buffer(), "b");
    assert_eq!(buf.position(), (2, 0));
}

#[test]
fn erase_before_at_line_start() {
    let mut buf = line("ab", 2);
    buf.erase_before(1);
    assert_eq!(buf.buffer(), "ab");
    assert_eq!(buf.position(), (2, 0));
}

#[test]
fn erase_before_on_empty_text() {
    let mut buf = TerminalBuffer::new("> ", None);
    buf.set_position((2, 3));
    let script = buf.erase_before(1);
    assert_eq!(buf.buffer(), "");
    assert_eq!(script, repaint("> ", "", (2, 3)));
}

#[test]
fn erase_before_removes_whole_graphemes() {
    let mut buf = line("ae\u{301}世", 6);
    buf.erase_before(1);
    assert_eq!(buf.buffer(), "ae\u{301}");
    assert_eq!(buf.position(), (4, 0));
    buf.erase_before(1);
    assert_eq!(buf.buffer(), "a");
    assert_eq!(buf.position(), (3, 0));
}

#[test]
fn backward_kill_line_erases_up_to_cursor() {
    let mut buf = line("hello world", 8);
    buf.backward_kill_line();
    assert_eq!(buf.buffer(), "world");
    assert_eq!(buf.position(), (2, 0));
}

#[test]
fn erase_to_line_end_keeps_the_start() {
    let mut buf = line("hello world", 7);
    let script = buf.erase_to_line_end();
    assert_eq!(buf.buffer(), "hello");
    assert_eq!(buf.position(), (7, 0));
    assert_eq!(script, repaint("> ", "hello", (7, 0)));
}

#[test]
fn backward_kill_word_twice() {
    let mut buf = line("foo bar", 9);
    buf.backward_kill_word();
    assert_eq!(buf.buffer(), "foo ");
    assert_eq!(buf.position(), (6, 0));
    buf.backward_kill_word();
    assert_eq!(buf.buffer(), "");
    assert_eq!(buf.position(), (2, 0));
}

#[test]
fn backward_kill_word_mid_line() {
    let mut buf = line("one two  three", 11);
    buf.backward_kill_word();
    assert_eq!(buf.buffer(), "one three");
    assert_eq!(buf.position(), (6, 0));
}

#[test]
fn backward_kill_word_on_blanks_only() {
    let mut buf = line("   ", 5);
    buf.backward_kill_word();
    assert_eq!(buf.buffer(), "");
}

#[test]
fn mask_hides_each_grapheme() {
    let mut buf = TerminalBuffer::new("> ", Some('*'));
    buf.refresh("hi", (4, 0));
    assert_eq!(buf.visible(), "**");
    assert_eq!(buf.buffer(), "hi");
    let text: String = buf.into_string();
    assert_eq!(text, "hi");
}

#[test]
fn mask_counts_graphemes_not_bytes_or_columns() {
    let mut buf = TerminalBuffer::new("> ", Some('*'));
    buf.refresh("e\u{301}世", (2, 0));
    assert_eq!(buf.visible(), "**");
    assert_eq!(buf.buffer_columns(), 3);
}

#[test]
fn mask_is_used_in_redraw() {
    let mut buf = TerminalBuffer::new("pw: ", Some('*'));
    buf.set_position((4, 1));
    buf.write_char('s');
    let script = buf.write_char('e');
    assert_eq!(script, repaint("pw: ", "**", (6, 1)));
    assert_eq!(buf.buffer(), "se");
}

#[test]
fn visible_without_mask_is_the_text() {
    let buf = line("hi", 2);
    assert_eq!(buf.visible(), "hi");
}

#[test]
fn redraw_twice_is_the_same() {
    let buf = line("abc", 3);
    let first = buf.redraw((3, 0));
    let second = buf.redraw((3, 0));
    assert_eq!(first, second);
    assert_eq!(first, repaint("> ", "abc", (3, 0)));
    assert_eq!(buf.buffer(), "abc");
}

#[test]
fn refresh_replaces_text_and_cursor() {
    let mut buf = TerminalBuffer::new("> ", None);
    let script = buf.refresh("世界", (6, 2));
    assert_eq!(buf.buffer(), "世界");
    assert_eq!(buf.buffer_columns(), 4);
    assert_eq!(buf.position(), (6, 2));
    assert_eq!(script, repaint("> ", "世界", (6, 2)));
}

#[test]
fn push_appends_and_writes_unmasked() {
    let mut buf = TerminalBuffer::new("> ", Some('*'));
    buf.refresh("ab", (2, 0));
    let script = buf.push('\n');
    assert_eq!(buf.buffer(), "ab\n");
    assert_eq!(script, vec![Directive::Write("\n".to_string())]);
    assert_eq!(buf.position(), (2, 0));
}

#[test]
fn write_prefix_writes_and_flushes() {
    let buf = TerminalBuffer::new("> ", None);
    assert_eq!(
        buf.write_prefix(),
        vec![Directive::Write("> ".to_string()), Directive::Flush]
    );
}

#[test]
fn move_cursor_left_and_right() {
    let mut buf = line("a世b", 5);
    let script = buf.move_cursor_left();
    assert_eq!(buf.position(), (3, 0));
    assert_eq!(script, vec![Directive::MoveTo(3, 0), Directive::Flush]);
    buf.move_cursor_left();
    assert_eq!(buf.position(), (2, 0));
    buf.move_cursor_left();
    assert_eq!(buf.position(), (2, 0));
    buf.move_cursor_right();
    assert_eq!(buf.position(), (3, 0));
    buf.move_cursor_right();
    assert_eq!(buf.position(), (5, 0));
    buf.move_cursor_right();
    assert_eq!(buf.position(), (6, 0));
    buf.move_cursor_right();
    assert_eq!(buf.position(), (6, 0));
    assert_eq!(buf.buffer(), "a世b");
}

#[test]
fn move_to_line_begin_and_end() {
    let mut buf = line("a世b", 3);
    let script = buf.move_to_line_end();
    assert_eq!(buf.position(), (6, 0));
    assert_eq!(script, vec![Directive::MoveTo(6, 0), Directive::Flush]);
    buf.move_to_line_begin();
    assert_eq!(buf.position(), (2, 0));
}

#[test]
fn clear_screen_redraws_in_top_row() {
    let mut buf = TerminalBuffer::new("> ", None);
    buf.refresh("abc", (4, 9));
    let script = buf.clear_screen();
    let mut expected = vec![Directive::ClearAll];
    expected.extend(repaint("> ", "abc", (4, 0)));
    assert_eq!(script, expected);
    assert_eq!(buf.position(), (4, 0));
    assert_eq!(buf.buffer(), "abc");
}

#[test]
fn set_size_and_position_keep_text() {
    let mut buf = line("abc", 2);
    buf.set_size((120, 40));
    buf.set_position((4, 5));
    assert_eq!(buf.position(), (4, 5));
    assert_eq!(buf.buffer(), "abc");
    assert_eq!(buf.buffer_columns(), 3);
}

#[test]
fn column_saturates_at_coordinate_limit() {
    let mut buf = line("ab", 65535);
    buf.set_position((65535, 0));
    buf.move_to_line_end();
    assert_eq!(buf.position(), (4, 0));
}

#[test]
fn index_at_counts_whole_clusters() {
    let ws: Vec<usize> = vec![1, 2, 0, 1];
    assert_eq!(index_at(&ws, 0), 0);
    assert_eq!(index_at(&ws, 1), 1);
    assert_eq!(index_at(&ws, 2), 1);
    assert_eq!(index_at(&ws, 3), 3);
    assert_eq!(index_at(&ws, 4), 4);
    assert_eq!(index_at(&ws, 100), 4);
}

#[test]
fn range_columns_sums_and_saturates() {
    let ws: Vec<usize> = vec![1, 2, 0, 1];
    assert_eq!(range_columns(&ws, 0, 4), 4);
    assert_eq!(range_columns(&ws, 1, 3), 2);
    assert_eq!(range_columns(&ws, 2, 2), 0);
    let big: Vec<usize> = vec![usize::MAX, 0, 3];
    assert_eq!(range_columns(&big, 0, 3), usize::MAX);
}

#[test]
fn measure_and_join_parts() {
    let parts: Vec<String> = vec!["a".to_string(), "世".to_string(), "e\u{301}".to_string()];
    assert_eq!(measure(&parts), vec![1, 2, 1]);
    assert_eq!(join_range(&parts, 0, 3), "a世e\u{301}");
    assert_eq!(join_range(&parts, 1, 2), "世");
    assert_eq!(join_range(&parts, 2, 2), "");
}

#[test]
fn run_length_counts_backwards() {
    let parts: Vec<String> = vec!["a", "b", " ", "\t", "c"].into_iter().map(String::from).collect();
    assert_eq!(run_length(&parts, 5, false), 1);
    assert_eq!(run_length(&parts, 5, true), 0);
    assert_eq!(run_length(&parts, 4, true), 2);
    assert_eq!(run_length(&parts, 2, false), 2);
    assert_eq!(run_length(&parts, 0, true), 0);
    assert!(space_char(' '));
    assert!(space_char('\u{3000}'));
    assert!(!space_char('x'));
}

#[test]
fn command_carries_its_character() {
    let command = Command::WriteChar('x');
    assert_eq!(command, Command::WriteChar('x'));
    assert_ne!(command, Command::AcceptLine);
    assert!(matches!(Command::BackwardKillWord, Command::BackwardKillWord));
}

#[test]
fn write_char_advances_by_display_width() {
    let mut buf = TerminalBuffer::new("> ", None);
    buf.set_position((2, 0));
    buf.write_char('世');
    assert_eq!(buf.buffer(), "世");
    assert_eq!(buf.position(), (4, 0));
    buf.write_char('x');
    assert_eq!(buf.buffer(), "世x");
    assert_eq!(buf.position(), (5, 0));
    assert_eq!(buf.buffer_columns(), 3);
}

#[test]
fn write_char_combining_mark_joins_its_base() {
    let mut buf = line("e", 3);
    buf.write_char('\u{301}');
    assert_eq!(buf.buffer(), "e\u{301}");
    assert_eq!(buf.buffer_columns(), 1);
    assert_eq!(buf.position(), (3, 0));
    buf.erase_before(1);
    assert_eq!(buf.buffer(), "");
    assert_eq!(buf.position(), (2, 0));
}

#[test]
fn text_columns_by_grapheme() {
    assert_eq!(text_columns(""), 0);
    assert_eq!(text_columns("abc"), 3);
    assert_eq!(text_columns("世界"), 4);
    assert_eq!(text_columns("e\u{301}"), 1);
}

#[test]
fn execute_runs_the_operation_of_each_command() {
    let mut buf = TerminalBuffer::new("> ", None);
    buf.set_position((2, 0));
    assert_eq!(
        buf.execute(Command::WriteChar('a')),
        Outcome::Script(repaint("> ", "a", (3, 0)))
    );
    buf.execute(Command::WriteChar(' '));
    buf.execute(Command::WriteChar('b'));
    buf.execute(Command::WriteChar('c'));
    assert_eq!(buf.buffer(), "a bc");
    assert_eq!(
        buf.execute(Command::MoveCursorLeft),
        Outcome::Script(vec![Directive::MoveTo(5, 0), Directive::Flush])
    );
    assert_eq!(
        buf.execute(Command::BackwardDeleteChar),
        Outcome::Script(repaint("> ", "a c", (4, 0)))
    );
    assert_eq!(
        buf.execute(Command::MoveToLineEnd),
        Outcome::Script(vec![Directive::MoveTo(5, 0), Directive::Flush])
    );
    assert_eq!(
        buf.execute(Command::BackwardKillWord),
        Outcome::Script(repaint("> ", "a ", (4, 0)))
    );
    assert_eq!(
        buf.execute(Command::MoveToLineBegin),
        Outcome::Script(vec![Directive::MoveTo(2, 0), Directive::Flush])
    );
    assert_eq!(
        buf.execute(Command::MoveCursorRight),
        Outcome::Script(vec![Directive::MoveTo(3, 0), Directive::Flush])
    );
    assert_eq!(
        buf.execute(Command::EraseToLineEnd),
        Outcome::Script(repaint("> ", "a", (3, 0)))
    );
    assert_eq!(
        buf.execute(Command::BackwardKillLine),
        Outcome::Script(repaint("> ", "", (2, 0)))
    );
    let mut cleared = vec![Directive::ClearAll];
    cleared.extend(repaint("> ", "", (2, 0)));
    assert_eq!(buf.execute(Command::ClearScreen), Outcome::Script(cleared));
}

#[test]
fn execute_signals_without_editing() {
    let mut buf = line("abc", 3);
    assert_eq!(buf.execute(Command::AcceptLine), Outcome::Accept);
    assert_eq!(buf.execute(Command::AbortPrompt), Outcome::Abort);
    assert_eq!(buf.execute(Command::PreviousHistory), Outcome::PreviousHistory);
    assert_eq!(buf.execute(Command::NextHistory), Outcome::NextHistory);
    assert_eq!(buf.buffer(), "abc");
    assert_eq!(buf.position(), (3, 0));
}

#[test]
fn blank_goes_by_the_first_character() {
    assert!(blank(" "));
    assert!(blank("\r\n"));
    assert!(blank("\u{2003}"));
    assert!(!blank(""));
    assert!(!blank("a "));
    assert!(!blank("e\u{301}"));
}

#[test]
fn buffer_converts_into_its_text() {
    let mut buf = TerminalBuffer::new("> ", Some('*'));
    buf.refresh("secret", (8, 0));
    let text: String = buf.into();
    assert_eq!(text, "secret");
}
