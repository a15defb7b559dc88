use datawrangler::prompt::Prompt;

fn submit(p: &mut Prompt, line: &str) -> String {
    let mut es = p.begin_line();
    for c in line.chars() {
        es.key_char(c);
    }
    p.finish_line(es)
}

#[test]
fn typed_line_is_returned_and_stored() {
    let mut p = Prompt::new(">> ");
    assert_eq!(p.prompt_text(), ">> ");
    let line = submit(&mut p, "select 1");
    assert_eq!(line, "select 1");
    assert_eq!(p.history_len(), 1);
    assert_eq!(p.history_entry(0), "select 1");
}

#[test]
fn recall_round_trip() {
    let mut p = Prompt::new(">> ");
    submit(&mut p, "select 1");
    submit(&mut p, "select 2");

    let mut es = p.begin_line();
    assert_eq!(es.cursor(), 2);
    assert_eq!(es.buffer(), "");

    p.key_up(&mut es);
    assert_eq!(es.buffer(), "select 2");
    p.key_up(&mut es);
    assert_eq!(es.buffer(), "select 1");
    // clamped at the oldest entry
    p.key_up(&mut es);
    assert_eq!(es.buffer(), "select 1");

    p.key_down(&mut es);
    assert_eq!(es.buffer(), "select 2");
    // clamped at the newest entry
    p.key_down(&mut es);
    assert_eq!(es.buffer(), "select 2");
}

#[test]
fn history_grows_by_one_per_line() {
    let mut p = Prompt::new("> ");
    assert_eq!(p.history_len(), 0);
    submit(&mut p, "select 1");
    assert_eq!(p.history_len(), 1);
    // an empty line is appended too
    submit(&mut p, "");
    assert_eq!(p.history_len(), 2);
    // an exact duplicate is appended too
    submit(&mut p, "select 1");
    assert_eq!(p.history_len(), 3);
    assert_eq!(p.history_entry(0), "select 1");
    assert_eq!(p.history_entry(1), "");
    assert_eq!(p.history_entry(2), "select 1");
}

#[test]
fn down_on_empty_history_is_ignored() {
    let p = Prompt::new("> ");
    let mut es = p.begin_line();
    p.key_down(&mut es);
    assert_eq!(es.buffer(), "");
    assert_eq!(es.cursor(), 0);
    p.key_up(&mut es);
    assert_eq!(es.buffer(), "");
}

#[test]
fn editing_a_recalled_line_leaves_history_intact() {
    let mut p = Prompt::new("> ");
    submit(&mut p, "show");

    let mut es = p.begin_line();
    p.key_up(&mut es);
    assert_eq!(es.buffer(), "show");
    // recall yields a copy: appending to it cannot touch the stored entry
    es.key_char('x');
    assert_eq!(es.buffer(), "showx");
    assert_eq!(p.history_entry(0), "show");

    let line = p.finish_line(es);
    assert_eq!(line, "showx");
    assert_eq!(p.history_entry(0), "show");
    assert_eq!(p.history_entry(1), "showx");
}
