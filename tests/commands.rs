use chrklst::{choose_command, Command};

fn args(items: &[&str]) -> Vec<String> {
    items.iter().map(|s| s.to_string()).collect()
}

#[test]
fn no_arguments_lists() {
    assert_eq!(choose_command(&args(&["chrklst"])).unwrap(), Command::List);
    assert_eq!(choose_command(&Vec::new()).unwrap(), Command::List);
}

#[test]
fn flags_select_commands() {
    assert_eq!(choose_command(&args(&["chrklst", "-d"])).unwrap(), Command::Directory);
    assert_eq!(choose_command(&args(&["chrklst", "--directory"])).unwrap(), Command::Directory);
    assert_eq!(choose_command(&args(&["chrklst", "-h"])).unwrap(), Command::Help);
    assert_eq!(choose_command(&args(&["chrklst", "--help"])).unwrap(), Command::Help);
    assert_eq!(choose_command(&args(&["chrklst", "-v"])).unwrap(), Command::Version);
    assert_eq!(choose_command(&args(&["chrklst", "--version"])).unwrap(), Command::Version);
    assert_eq!(choose_command(&args(&["chrklst", "-l"])).unwrap(), Command::List);
    assert_eq!(choose_command(&args(&["chrklst", "--list"])).unwrap(), Command::List);
}

#[test]
fn other_argument_names_a_checklist() {
    assert_eq!(
        choose_command(&args(&["chrklst", "morning"])).unwrap(),
        Command::Execute(String::from("morning"))
    );
    assert_eq!(
        choose_command(&args(&["chrklst", "-x"])).unwrap(),
        Command::Execute(String::from("-x"))
    );
}

#[test]
fn too_many_arguments_is_an_error() {
    let e = choose_command(&args(&["chrklst", "a", "b"])).unwrap_err();
    assert_eq!(e.message(), "Invalid arguments");
}
