use ebb::prompt::{chomp, Prompt as SimplePrompt, PromptError};
use ebb::prompt_builder::{join_strings, Prompt, PromptList};

#[test]
fn chomp_removes_line_ends() {
    let mut s = String::from("name\r\n");
    assert_eq!(chomp(&mut s), "\n\r");
    assert_eq!(s, "name");
    let mut s = String::from("name\n");
    assert_eq!(chomp(&mut s), "\n");
    assert_eq!(s, "name");
    let mut s = String::from("name");
    assert_eq!(chomp(&mut s), "");
    assert_eq!(s, "name");
    let mut s = String::new();
    assert_eq!(chomp(&mut s), "");
    assert_eq!(s, "");
}

#[test]
fn simple_prompt_question() {
    assert_eq!(SimplePrompt::new().question("Name? "), "Name? ");
    let p = SimplePrompt::default(String::from("Bob"));
    assert_eq!(p.question("Name?"), "Name? [Bob]");
    assert_eq!(p.question("Name?\n"), "Name?\n [Bob]\n");
}

#[test]
fn builder_format_trims_and_decorates() {
    assert_eq!(Prompt::new("  Name?  ").format(), "Name? ");
    assert_eq!(Prompt::new("Name?\n").default("Bob").format(), "Name? [Bob]\n ");
    assert_eq!(
        Prompt::new(" Yes or no? ").choices(vec!["y", "n"]).format(),
        "Yes or no? [y, n] "
    );
    assert_eq!(
        Prompt::new("Q").choices(vec!["y"]).default("y").format(),
        "Q [y] "
    );
}

#[test]
fn builder_answers() {
    let p = Prompt::new("Yes or no?").choices(vec!["y", "Y", "n", "N"]);
    assert_eq!(p.answer(String::from("Y")).unwrap(), "Y");
    match p.answer(String::from("maybe")) {
        Err(PromptError::ValidateError(m)) => assert_eq!(m, "Valid options are: y, Y, n, N"),
        other => panic!("unexpected {:?}", other),
    }
    let d = Prompt::new("Editor?").default("vi");
    assert_eq!(d.answer(String::new()).unwrap(), "vi");
    assert_eq!(d.answer(String::from("nano")).unwrap(), "nano");
    assert_eq!(Prompt::new("Name?").answer(String::new()).unwrap(), "");
}

#[test]
fn join_with_separator() {
    assert_eq!(join_strings(&vec![], ", "), "");
    assert_eq!(join_strings(&vec![String::from("a")], ", "), "a");
    assert_eq!(
        join_strings(&vec![String::from("a"), String::from("b"), String::from("c")], "-"),
        "a-b-c"
    );
}

#[test]
fn prompt_list_is_first_in_first_out() {
    let mut l = PromptList::new()
        .add(Prompt::new("first"))
        .add(Prompt::new("second"));
    assert_eq!(l.next().unwrap().format(), "first ");
    assert_eq!(l.next().unwrap().format(), "second ");
    assert!(l.next().is_none());
}
