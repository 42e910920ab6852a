use wordcount::HostError;
use wordcount::Session;
use wordcount::StatsAccumulator;
use wordcount::StatusMode;
use wordcount::count_characters;
use wordcount::count_lines;

#[test]
fn three_lines_from_two_separators() {
    assert_eq!(count_lines("a\nb\nc"), 3);
}

#[test]
fn empty_document_has_one_line() {
    assert_eq!(count_lines(""), 1);
}

#[test]
fn trailing_newline_opens_a_line() {
    assert_eq!(count_lines("a\n"), 2);
    assert_eq!(count_lines("\n"), 2);
}

#[test]
fn char_count_is_in_scalar_values() {
    assert_eq!(count_characters(""), 0);
    assert_eq!(count_characters("abc"), 3);
    assert_eq!(count_characters("héllo"), 5);
    assert_eq!(count_characters("a\nb"), 3);
}

#[test]
fn first_refresh_creates_then_updates() {
    let mut session = Session::new();
    let first = session.refresh("hello world");
    assert_eq!(first, StatusMode::Create);
    assert_eq!(session.state.words, 2);
    assert_eq!(session.state.lines, 1);
    assert_eq!(session.state.chars, 11);

    let second = session.refresh("hello world again");
    assert_eq!(second, StatusMode::Update);
    assert_eq!(session.state.words, 3);
    assert_eq!(session.state.chars, 17);
}

#[test]
fn refresh_recomputes_wholesale() {
    let mut session = Session::new();
    session.refresh("one two three\nfour");
    assert_eq!(session.state.words, 4);
    assert_eq!(session.state.lines, 2);
    session.refresh("");
    assert_eq!(session.state.words, 0);
    assert_eq!(session.state.lines, 1);
    assert_eq!(session.state.chars, 0);
}

#[test]
fn aborted_refresh_keeps_prior_state() {
    let mut session = Session::new();
    session.refresh("a b c");
    let before = session.state;
    session.abort_refresh(HostError::IoFailure);
    assert_eq!(session.state, before);
    assert!(session.status_created);
    assert_eq!(session.refresh("a b c d"), StatusMode::Update);
}

#[test]
fn accumulator_matches_whole_document_refresh() {
    let mut acc = StatsAccumulator::new();
    acc.feed_line("a b");
    acc.feed_line("c-d");
    acc.feed_line("");
    acc.feed_line("x_y z");
    let st = acc.finish();

    let mut session = Session::new();
    session.refresh("a b\nc-d\n\nx_y z");
    assert_eq!(st, session.state);
    assert_eq!(st.words, 6);
    assert_eq!(st.lines, 4);
    assert_eq!(st.chars, 14);
}

#[test]
fn empty_accumulator_is_the_empty_document() {
    let acc = StatsAccumulator::new();
    let st = acc.finish();
    assert_eq!(st.words, 0);
    assert_eq!(st.lines, 1);
    assert_eq!(st.chars, 0);
}

#[test]
fn accumulator_reports_progress() {
    let mut acc = StatsAccumulator::new();
    assert_eq!(acc.chars_so_far(), 0);
    acc.feed_line("ab");
    assert_eq!(acc.chars_so_far(), 2);
    acc.feed_line("c");
    assert_eq!(acc.chars_so_far(), 4);
}

#[test]
fn publish_takes_a_ready_snapshot() {
    let mut acc = StatsAccumulator::new();
    acc.feed_line("hello world");
    let st = acc.finish();
    let mut session = Session::new();
    assert_eq!(session.publish(st), StatusMode::Create);
    assert_eq!(session.state.words, 2);
    assert_eq!(session.publish(st), StatusMode::Update);
}
