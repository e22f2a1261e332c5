use wasi_tests_toml::Environment;

fn text(s: &str) -> String {
    s.to_string()
}

/// The same environment, whatever the order of the variables and of the
/// directories.
fn same(left: &Environment, right: &Environment) -> bool {
    let sorted = |list: &Vec<String>| {
        let mut list = list.clone();
        list.sort();
        list
    };
    let mut left_vars = left.vars.clone();
    let mut right_vars = right.vars.clone();
    left_vars.sort();
    right_vars.sort();
    left.exit == right.exit
        && left_vars == right_vars
        && left.args == right.args
        && sorted(&left.dirs) == sorted(&right.dirs)
        && left.stdin == right.stdin
        && left.stdout == right.stdout
        && left.stderr == right.stderr
}

fn through_text(env: &Environment) -> Environment {
    let spelled = toml::to_string(&env.to_document()).unwrap();
    Environment::decode(spelled.as_bytes()).unwrap()
}

fn sample() -> Environment {
    Environment {
        exit: -7,
        vars: vec![
            (text("PATH"), text("/bin:/usr/bin")),
            (text("with space"), text("a=b")),
            (text(""), text("")),
            (text("quote\"d"), text("it's \"here\"\n")),
        ],
        args: vec![text("prog"), text(""), text("--flag=1"), text("prog"), text("tab\there")],
        dirs: vec![text("/"), text("/foo"), text("rel\\path")],
        stdin: text("line one\nline two\n"),
        stdout: text("|.|..|"),
        stderr: text("h\u{e9}llo \u{1f600} \u{0}\u{7f}"),
    }
}

#[test]
fn default_survives_the_document() {
    let default = Environment::default();
    let back = Environment::from_document(&default.to_document()).unwrap();
    assert!(same(&back, &default));
    assert_eq!(back.exit, 0);
    assert!(back.vars.is_empty() && back.args.is_empty() && back.dirs.is_empty());
    assert!(back.stdin.is_empty() && back.stdout.is_empty() && back.stderr.is_empty());
}

#[test]
fn every_field_survives_the_document() {
    let env = sample();
    let back = Environment::from_document(&env.to_document()).unwrap();
    assert!(same(&back, &env));
    assert_eq!(back.args, env.args);
    assert_eq!(back.dirs, env.dirs);
}

#[test]
fn every_field_survives_the_text() {
    let env = sample();
    assert!(same(&through_text(&env), &env));
    let default = Environment::default();
    assert!(same(&through_text(&default), &default));
}

#[test]
fn extreme_exit_values_survive() {
    for exit in [i32::MIN, -1, 0, 1, 2, i32::MAX] {
        let env = Environment { exit, ..Environment::default() };
        assert_eq!(Environment::from_document(&env.to_document()).unwrap().exit, exit);
        assert_eq!(through_text(&env).exit, exit);
    }
}

#[test]
fn document_spells_every_field_out() {
    let document = sample().to_document();
    let table = document.as_table().unwrap();
    assert_eq!(table.len(), 7);
    assert_eq!(table["exit"].as_integer(), Some(-7));
    assert_eq!(table["stdout"].as_str(), Some("|.|..|"));
    assert_eq!(table["args"].as_array().unwrap().len(), 5);
    assert_eq!(table["args"].as_array().unwrap()[2].as_str(), Some("--flag=1"));
    assert_eq!(table["dirs"].as_array().unwrap()[1].as_str(), Some("/foo"));
    assert_eq!(table["vars"].as_table().unwrap().len(), 4);
    assert_eq!(table["vars"]["with space"].as_str(), Some("a=b"));
    let empty = Environment::default().to_document();
    assert_eq!(empty.as_table().unwrap().len(), 7);
    assert_eq!(empty["exit"].as_integer(), Some(0));
    assert_eq!(empty["stdin"].as_str(), Some(""));
    assert!(empty["vars"].as_table().unwrap().is_empty());
    assert!(empty["dirs"].as_array().unwrap().is_empty());
}

#[test]
fn directories_named_twice_come_back_once() {
    let env = Environment {
        dirs: vec![text("/"), text("/foo"), text("/")],
        ..Environment::default()
    };
    let back = Environment::from_document(&env.to_document()).unwrap();
    assert_eq!(back.dirs, vec![text("/"), text("/foo")]);
}
