use mystery::editor::{LineEditor, CURSOR_LIMIT, MAX_LENGTH};

const BACKSPACE: i32 = 127;
const ERASE_FORWARD: i32 = 126;
const ESCAPE: i32 = 27;
const NEWLINE: i32 = 10;

fn type_text(editor: &mut LineEditor, text: &str) {
    for c in text.chars() {
        assert_eq!(editor.feed(c as i32), None);
    }
}

fn arrow(editor: &mut LineEditor, last: char) {
    editor.feed(ESCAPE);
    editor.feed('[' as i32);
    editor.feed(last as i32);
}

fn text_of(editor: &LineEditor) -> String {
    editor.text().iter().collect()
}

#[test]
fn typing_then_submitting_hands_over_the_line() {
    let mut editor = LineEditor::new();
    type_text(&mut editor, "look");
    assert_eq!(editor.cursor(), 4);
    let line = editor.feed(NEWLINE).unwrap();
    assert_eq!(line, vec!['l', 'o', 'o', 'k']);
    assert!(editor.text().is_empty());
    assert_eq!(editor.cursor(), 0);
}

#[test]
fn type_then_erase_returns_to_empty() {
    for n in [0usize, 1, 5, 62, 70] {
        let mut editor = LineEditor::new();
        for i in 0..n {
            editor.feed('a' as i32 + (i % 26) as i32);
        }
        for _ in 0..n {
            editor.feed(BACKSPACE);
        }
        assert!(editor.text().is_empty());
        assert_eq!(editor.cursor(), 0);
    }
}

#[test]
fn cursor_stays_in_bounds() {
    let mut editor = LineEditor::new();
    let mut seed: u32 = 12345;
    let codes = [
        'a' as i32, 'b' as i32, ' ' as i32, BACKSPACE, ERASE_FORWARD, ESCAPE, '[' as i32,
        'C' as i32, 'D' as i32, 0, 200, -5,
    ];
    for _ in 0..5000 {
        seed = seed.wrapping_mul(1103515245).wrapping_add(12345);
        let code = codes[((seed >> 16) as usize) % codes.len()];
        editor.feed(code);
        let len = editor.text().len();
        assert!(editor.cursor() <= len.min(CURSOR_LIMIT));
        assert!(len <= MAX_LENGTH);
    }
}

#[test]
fn arrows_move_the_cursor_within_the_text() {
    let mut editor = LineEditor::new();
    type_text(&mut editor, "ac");
    arrow(&mut editor, 'D');
    assert_eq!(editor.cursor(), 1);
    type_text(&mut editor, "b");
    assert_eq!(text_of(&editor), "abc");
    assert_eq!(editor.cursor(), 2);
    arrow(&mut editor, 'C');
    arrow(&mut editor, 'C');
    assert_eq!(editor.cursor(), 3);
    arrow(&mut editor, 'D');
    arrow(&mut editor, 'D');
    arrow(&mut editor, 'D');
    arrow(&mut editor, 'D');
    assert_eq!(editor.cursor(), 0);
}

#[test]
fn other_escape_tails_are_swallowed() {
    let mut editor = LineEditor::new();
    type_text(&mut editor, "ab");
    editor.feed(ESCAPE);
    editor.feed('O' as i32);
    editor.feed('H' as i32);
    assert_eq!(text_of(&editor), "ab");
    assert_eq!(editor.cursor(), 2);
    editor.feed(ESCAPE);
    assert_eq!(editor.feed(NEWLINE), None);
    assert_eq!(editor.feed(NEWLINE), None);
    assert_eq!(text_of(&editor), "ab");
    assert_eq!(editor.feed(NEWLINE), Some(vec!['a', 'b']));
}

#[test]
fn erase_backward_and_forward() {
    let mut editor = LineEditor::new();
    type_text(&mut editor, "abcd");
    arrow(&mut editor, 'D');
    arrow(&mut editor, 'D');
    editor.feed(BACKSPACE);
    assert_eq!(text_of(&editor), "acd");
    assert_eq!(editor.cursor(), 1);
    editor.feed(ERASE_FORWARD);
    assert_eq!(text_of(&editor), "ad");
    assert_eq!(editor.cursor(), 1);
    arrow(&mut editor, 'C');
    editor.feed(ERASE_FORWARD);
    assert_eq!(text_of(&editor), "ad");
    arrow(&mut editor, 'D');
    arrow(&mut editor, 'D');
    editor.feed(BACKSPACE);
    assert_eq!(text_of(&editor), "ad");
    assert_eq!(editor.cursor(), 0);
}

#[test]
fn full_line_drops_further_keys() {
    let mut editor = LineEditor::new();
    for _ in 0..MAX_LENGTH + 10 {
        editor.feed('x' as i32);
    }
    assert_eq!(editor.text().len(), MAX_LENGTH);
    assert_eq!(editor.cursor(), CURSOR_LIMIT);
    arrow(&mut editor, 'C');
    assert_eq!(editor.cursor(), CURSOR_LIMIT);
}

#[test]
fn unprintable_codes_are_ignored() {
    let mut editor = LineEditor::new();
    for code in [0, 7, 9, 13, 200, 300, -1] {
        assert_eq!(editor.feed(code), None);
    }
    assert!(editor.text().is_empty());
}

#[test]
fn clear_resets_the_line() {
    let mut editor = LineEditor::new();
    type_text(&mut editor, "abc");
    editor.feed(ESCAPE);
    editor.clear();
    assert!(editor.text().is_empty());
    assert_eq!(editor.cursor(), 0);
    type_text(&mut editor, "z");
    assert_eq!(text_of(&editor), "z");
}
