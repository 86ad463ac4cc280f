use cmdshell::prompt::Prompt;

#[test]
fn test_set_prompt() {
    let mut prompt = Prompt::new(String::from("sytherax% "));
    assert!(prompt.get_prompt().as_str() == "sytherax% ");

    prompt.set_prompt(String::from("swoorup% "));
    assert!(prompt.get_prompt().as_str() == "swoorup% ");
}

#[test]
fn test_get_prompt() {
    let prompt = Prompt::new(String::from("sytherax% "));
    assert!(prompt.get_prompt().as_str() == "sytherax% ");
    assert!(prompt.get_prompt().as_str() == "sytherax% ");
}

#[test]
fn test_move_prompt() {
    let mut prompt = Prompt::new(String::from("sytherax% "));

    assert!(prompt.move_prompt().as_str() == "sytherax% ");
    assert!(prompt.move_prompt().as_str() != "sytherax% ");
    assert!(prompt.move_prompt().as_str() == "");
}
