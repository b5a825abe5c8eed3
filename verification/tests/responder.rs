use rulez::responder::RulesExecutor;
use rulez::text::FALLBACK_MESSAGE;

#[test]
fn readable_file_is_sent_exactly() {
    let executor = RulesExecutor::new(String::from("plugins/rulez/rules.txt"));
    let message = executor.execute(Some(String::from("Be kind.")));
    assert_eq!(message, "Be kind.");
}

#[test]
fn file_text_is_kept_byte_for_byte() {
    let text = "§6§lRules§r\r\n  1. no grief\t\n\n2. ❤ \u{0}\n";
    let executor = RulesExecutor::new(String::from("rules.txt"));
    let message = executor.execute(Some(String::from(text)));
    assert_eq!(message.as_bytes(), text.as_bytes());
}

#[test]
fn empty_file_gives_empty_message() {
    let executor = RulesExecutor::new(String::from("rules.txt"));
    assert_eq!(executor.execute(Some(String::new())), "");
}

#[test]
fn failed_read_gives_fallback() {
    let executor = RulesExecutor::new(String::from("rules.txt"));
    assert_eq!(executor.execute(None), "§cRules file could not be read.");
    assert_eq!(executor.execute(None), FALLBACK_MESSAGE);
}

#[test]
fn file_that_holds_the_fallback_text_is_sent_as_it_is() {
    let executor = RulesExecutor::new(String::from("rules.txt"));
    let message = executor.execute(Some(String::from(FALLBACK_MESSAGE)));
    assert_eq!(message, FALLBACK_MESSAGE);
}

#[test]
fn executor_keeps_its_path() {
    let executor = RulesExecutor::new(String::from("data/rulez/rules.txt"));
    assert_eq!(executor.rules_path(), "data/rulez/rules.txt");
    let _ = executor.execute(None);
    let _ = executor.execute(Some(String::from("x")));
    assert_eq!(executor.rules_path(), "data/rulez/rules.txt");
}

#[test]
fn each_invocation_answers_its_own_read() {
    let executor = RulesExecutor::new(String::from("rules.txt"));
    let reads = vec![
        Some(String::from("first")),
        None,
        Some(String::from("second")),
        None,
        Some(String::from("first")),
    ];
    let messages: Vec<String> = reads.iter().map(|read| executor.execute(read.clone())).collect();
    assert_eq!(
        messages,
        vec!["first", FALLBACK_MESSAGE, "second", FALLBACK_MESSAGE, "first"]
    );
}

#[test]
fn edits_are_seen_at_the_next_invocation() {
    let executor = RulesExecutor::new(String::from("rules.txt"));
    assert_eq!(executor.execute(Some(String::from("old text"))), "old text");
    assert_eq!(executor.execute(Some(String::from("new text"))), "new text");
}
