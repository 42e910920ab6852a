use wordcount::DeltaRegion;
use wordcount::EditDelta;
use wordcount::capitalize_edit;
use wordcount::triggers_transform;

fn insertion(at: usize, text: &str) -> EditDelta {
    let len = text.chars().count();
    EditDelta {
        regions: vec![DeltaRegion { start: at, end: at, inserted: text.to_string() }],
        end_offset: at + len,
    }
}

#[test]
fn lone_bang_insertion_triggers() {
    assert!(triggers_transform(&insertion(5, "!")));
}

#[test]
fn paste_containing_a_bang_does_not_trigger() {
    assert!(!triggers_transform(&insertion(3, "hi!")));
}

#[test]
fn other_single_characters_do_not_trigger() {
    assert!(!triggers_transform(&insertion(0, "a")));
    assert!(!triggers_transform(&insertion(0, "?")));
}

#[test]
fn replacement_does_not_trigger() {
    let delta = EditDelta {
        regions: vec![DeltaRegion { start: 2, end: 4, inserted: "!".to_string() }],
        end_offset: 3,
    };
    assert!(!triggers_transform(&delta));
}

#[test]
fn deletion_does_not_trigger() {
    let delta = EditDelta {
        regions: vec![DeltaRegion { start: 2, end: 4, inserted: String::new() }],
        end_offset: 2,
    };
    assert!(!triggers_transform(&delta));
}

#[test]
fn multi_region_delta_does_not_trigger() {
    let delta = EditDelta {
        regions: vec![
            DeltaRegion { start: 1, end: 1, inserted: "!".to_string() },
            DeltaRegion { start: 4, end: 4, inserted: "!".to_string() },
        ],
        end_offset: 6,
    };
    assert!(!triggers_transform(&delta));
}

fn apply(line: &str, start: usize, end: usize, text: &str) -> String {
    let chars: Vec<char> = line.chars().collect();
    let mut out: String = chars[..start].iter().collect();
    out.push_str(text);
    out.extend(&chars[end..]);
    out
}

#[test]
fn bang_after_word_uppercases_it() {
    // the line as it stands after "!" was typed at its end
    let line = "hello world!";
    let e = capitalize_edit(line, 0, 12, 7, "core");
    assert_eq!(e.start, 6);
    assert_eq!(e.end, 12);
    assert_eq!(e.text, "WORLD!");
    assert_eq!(apply(line, e.start, e.end, &e.text), "hello WORLD!");
    assert_eq!(e.priority, 7);
    assert_eq!(e.author, "core");
}

#[test]
fn document_coordinates_follow_the_line_start() {
    let e = capitalize_edit("hello world!", 100, 112, 0, "core");
    assert_eq!(e.start, 106);
    assert_eq!(e.end, 112);
    assert_eq!(e.text, "WORLD!");
}

#[test]
fn lone_bang_line_changes_nothing() {
    let line = "!";
    let e = capitalize_edit(line, 0, 1, 0, "core");
    assert_eq!(e.start, 0);
    assert_eq!(e.end, 1);
    assert_eq!(e.text, "!");
    assert_eq!(apply(line, e.start, e.end, &e.text), "!");
}

#[test]
fn word_start_tracks_the_last_whitespace() {
    let line = "a   !";
    let e = capitalize_edit(line, 0, 5, 0, "core");
    assert_eq!(e.start, 4);
    assert_eq!(e.end, 5);
    assert_eq!(e.text, "!");
    assert_eq!(apply(line, e.start, e.end, &e.text), "a   !");
}

#[test]
fn span_may_grow_under_uppercasing() {
    let line = "straße!";
    let e = capitalize_edit(line, 0, 7, 0, "core");
    assert_eq!(e.start, 0);
    assert_eq!(e.text, "STRASSE!");
    assert_eq!(apply(line, e.start, e.end, &e.text), "STRASSE!");
}

#[test]
fn empty_span_stays_empty() {
    let e = capitalize_edit("abc", 10, 10, 0, "core");
    assert_eq!(e.start, 10);
    assert_eq!(e.end, 10);
    assert_eq!(e.text, "");
}

#[test]
fn bang_mid_line_only_touches_the_word_before_it() {
    // "!" typed after "two" in "one two three"
    let line = "one two! three";
    let e = capitalize_edit(line, 0, 8, 0, "core");
    assert_eq!(e.start, 4);
    assert_eq!(e.end, 8);
    assert_eq!(e.text, "TWO!");
    assert_eq!(apply(line, e.start, e.end, &e.text), "one TWO! three");
}
