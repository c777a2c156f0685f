use std::collections::BTreeMap;

use agent_master::cli::{
    clipboard_output, describe, split_env, Command, Parameter, Shape, Subcommand, Takes, Value,
};
use agent_master::protocol::{ProcessSpec, Request, State, Window, WindowSize};

fn window() -> Window {
    Window { size: WindowSize { rows: 24, cols: 80 }, contents: vec![b'x'; 12] }
}

fn argument(parameter: &Parameter) -> clap::Arg {
    let named = clap::Arg::new(parameter.name).required(parameter.required);
    let shaped = match parameter.shape {
        Shape::Named => named.long(parameter.name),
        Shape::Repeated => named.long(parameter.name).action(clap::ArgAction::Append),
        Shape::Switch => named.long(parameter.name).action(clap::ArgAction::SetTrue),
        Shape::Positional => named,
        Shape::Trailing => named.last(true).num_args(1..).action(clap::ArgAction::Append),
    };
    let typed = match parameter.takes {
        Takes::Text | Takes::Nothing => shaped,
        Takes::Pair => shaped.value_parser(split_env),
        Takes::Small => shaped.value_parser(clap::builder::RangedU64ValueParser::<u16>::new()),
        Takes::Large => shaped.value_parser(clap::builder::RangedU64ValueParser::<u64>::new()),
    };
    match parameter.default {
        Some(default) => typed.default_value(default),
        None => typed,
    }
}

fn command_line() -> clap::Command {
    let mut line = clap::Command::new("amctl")
        .subcommand_required(true)
        .arg_required_else_help(true)
        .arg(clap::Arg::new("server").long("server").env("AGENT_MASTER_ADDR").required(true));
    for command in Subcommand::all() {
        let mut one = clap::Command::new(command.name());
        for parameter in command.parameters() {
            one = one.arg(argument(&parameter));
        }
        line = line.subcommand(one);
    }
    line
}

fn given<T: Clone + Send + Sync + 'static>(matches: &clap::ArgMatches, name: &str) -> Vec<T> {
    matches.get_many::<T>(name).map(|all| all.cloned().collect()).unwrap_or_default()
}

fn values(matches: &clap::ArgMatches, parameter: &Parameter) -> Vec<Value> {
    let name = parameter.name;
    match parameter.takes {
        Takes::Text => given::<String>(matches, name).into_iter().map(Value::Text).collect(),
        Takes::Pair => given::<(String, String)>(matches, name)
            .into_iter()
            .map(|(name, value)| Value::Pair(name, value))
            .collect(),
        Takes::Small => given::<u16>(matches, name).into_iter().map(Value::Small).collect(),
        Takes::Large => given::<u64>(matches, name).into_iter().map(Value::Large).collect(),
        Takes::Nothing => vec![Value::Switched(matches.get_flag(name))],
    }
}

fn try_parse(argv: &[&str]) -> Result<(String, Command), clap::Error> {
    let matches = command_line().try_get_matches_from(argv)?;
    let server = matches.get_one::<String>("server").expect("a server").clone();
    let (name, matches) = matches.subcommand().expect("a command");
    let command = Subcommand::all()
        .into_iter()
        .find(|command| command.name() == name)
        .expect("a command of that name");
    let all = command.parameters().iter().map(|one| values(matches, one)).collect();
    Ok((server, Command::read(command, &all).expect("a spelled command")))
}

fn parse(argv: &[&str]) -> Command {
    try_parse(argv).expect("parse").1
}

#[test]
fn the_command_line_is_well_formed() {
    command_line().debug_assert();
}

#[test]
fn starting_takes_the_command_after_a_double_dash_and_fills_in_the_rest() {
    let command = parse(&["amctl", "--server", "here:1", "start", "--", "sh", "-c", "echo hi"]);
    let Command::Start { cwd, env, rows, cols, argv } = command else {
        panic!("expected a start");
    };
    assert_eq!(cwd, ".");
    assert!(env.is_empty());
    assert_eq!((rows, cols), (24, 80));
    assert_eq!(argv, vec!["sh", "-c", "echo hi"]);
}

#[test]
fn environment_pairs_pile_up_and_the_last_of_a_name_wins() {
    let command = parse(&[
        "amctl", "--server", "here:1", "start", "--env", "A=1", "--env", "A=2", "--env", "B=3",
        "--", "sh",
    ]);
    let Command::Start { env, .. } = command.clone() else { panic!("expected a start") };
    let expected = BTreeMap::from([
        ("A".to_string(), "2".to_string()),
        ("B".to_string(), "3".to_string()),
    ]);
    assert_eq!(BTreeMap::from_iter(env), expected);

    let Ok(Request::Start(spec)) = command.request(Vec::new()) else { panic!("expected a start") };
    assert_eq!(BTreeMap::from_iter(spec.env.pairs().clone()), expected);
    assert_eq!(spec.env.pairs().len(), 2);
}

#[test]
fn a_start_without_a_command_is_rejected() {
    assert!(try_parse(&["amctl", "--server", "here:1", "start"]).is_err());
}

#[test]
fn an_environment_pair_without_a_value_is_rejected_at_the_command_line() {
    assert!(try_parse(&[
        "amctl", "--server", "here:1", "start", "--env", "NOEQ", "--", "sh"
    ])
    .is_err());
}

#[test]
fn stopping_waits_five_seconds_unless_told_otherwise() {
    let Command::Stop { grace_ms } = parse(&["amctl", "--server", "here:1", "stop"]) else {
        panic!("expected a stop")
    };
    assert_eq!(grace_ms, 5_000);
}

#[test]
fn the_server_is_the_one_that_was_named() {
    let (server, command) = try_parse(&["amctl", "--server", "here:1", "state"]).expect("parse");
    assert_eq!(server, "here:1");
    assert_eq!(command, Command::State);
}

#[test]
fn what_is_given_on_the_command_line_reaches_the_request() {
    let command = parse(&[
        "amctl", "--server", "here:1", "start", "--cwd", "/workdir", "--rows", "80", "--cols",
        "100", "--env", "TERM=xterm-256color", "--", "agent", "--verbose", "now",
    ]);
    let Ok(Request::Start(ProcessSpec { command, args, cwd, env, size })) =
        command.request(Vec::new())
    else {
        panic!("expected a start")
    };
    assert_eq!(command, "agent");
    assert_eq!(args, vec!["--verbose", "now"]);
    assert_eq!(cwd, "/workdir");
    assert_eq!(env.pairs(), &vec![("TERM".to_string(), "xterm-256color".to_string())]);
    assert_eq!(size, WindowSize { rows: 80, cols: 100 });
}

#[test]
fn every_other_command_asks_what_it_is_called_after() {
    let ask = |argv: &[&str]| {
        let mut line = vec!["amctl", "--server", "here:1"];
        line.extend(argv);
        parse(&line).request(vec![1, 2])
    };
    assert_eq!(ask(&["window"]), Ok(Request::Window));
    assert_eq!(ask(&["window", "--freeze"]), Ok(Request::Window));
    assert_eq!(ask(&["input", "hé"]), Ok(Request::Input { data: "hé".as_bytes().to_vec() }));
    assert_eq!(ask(&["input"]), Ok(Request::Input { data: vec![1, 2] }));
    let size = WindowSize { rows: 40, cols: 120 };
    assert_eq!(ask(&["resize", "--rows", "40", "--cols", "120"]), Ok(Request::Resize { size }));
    assert_eq!(ask(&["stop", "--grace-ms", "250"]), Ok(Request::Stop { grace_ms: 250 }));
    assert_eq!(ask(&["state"]), Ok(Request::State));
    assert_eq!(ask(&["clipboard"]), Ok(Request::Clipboard));
}

#[test]
fn a_window_may_be_frozen() {
    let line = ["amctl", "--server", "here:1", "window"];
    assert_eq!(parse(&line), Command::Window { freeze: false });
    let line = ["amctl", "--server", "here:1", "window", "--freeze"];
    assert_eq!(parse(&line), Command::Window { freeze: true });
}

#[test]
fn sizes_that_do_not_fit_and_sizes_left_out_are_rejected() {
    let line = ["amctl", "--server", "here:1", "resize", "--rows", "65536", "--cols", "80"];
    assert!(try_parse(&line).is_err());
    assert!(try_parse(&["amctl", "--server", "here:1", "resize", "--rows", "40"]).is_err());
}

#[test]
fn only_input_without_text_is_read() {
    assert!(Command::Input { text: None }.reads_input());
    assert!(!Command::Input { text: Some(String::new()) }.reads_input());
    assert!(!Command::State.reads_input());
}

#[test]
fn a_start_of_nothing_asks_nothing() {
    let start = Command::Start {
        cwd: ".".to_string(),
        env: Vec::new(),
        rows: 24,
        cols: 80,
        argv: Vec::new(),
    };
    assert_eq!(start.request(Vec::new()), Err("no command given".to_string()));
}

#[test]
fn values_that_spell_no_command_are_not_read_as_one() {
    assert_eq!(Command::read(Subcommand::Stop, &Vec::new()), None);
    assert_eq!(Command::read(Subcommand::Stop, &vec![vec![Value::Small(1)]]), None);
    let two = vec![vec![Value::Large(1), Value::Large(2)]];
    assert_eq!(Command::read(Subcommand::Stop, &two), None);
    let argv = vec![
        vec![Value::Text(".".to_string())],
        vec![Value::Text("A=1".to_string())],
        vec![Value::Small(24)],
        vec![Value::Small(80)],
        vec![Value::Text("sh".to_string())],
    ];
    assert_eq!(Command::read(Subcommand::Start, &argv), None);
    assert_eq!(Command::read(Subcommand::State, &Vec::new()), Some(Command::State));
}

#[test]
fn commands_go_by_different_names() {
    let mut names: Vec<&str> = Subcommand::all().into_iter().map(Subcommand::name).collect();
    assert_eq!(
        names,
        vec!["start", "window", "input", "resize", "stop", "state", "clipboard"]
    );
    names.sort_unstable();
    names.dedup();
    assert_eq!(names.len(), 7);
}

#[test]
fn an_environment_pair_splits_on_the_first_equals_sign() {
    assert_eq!(
        split_env("URL=http://x/?a=b").expect("split"),
        ("URL".to_string(), "http://x/?a=b".to_string())
    );
}

#[test]
fn an_empty_value_is_still_a_pair() {
    assert_eq!(split_env("EMPTY=").expect("split"), ("EMPTY".to_string(), String::new()));
}

#[test]
fn a_pair_without_an_equals_sign_is_rejected() {
    assert!(split_env("URL").is_err());
    assert_eq!(split_env("URL"), Err("expected NAME=VALUE".to_string()));
}

#[test]
fn a_pair_may_lack_a_name_and_hold_any_character() {
    assert_eq!(split_env("=x").expect("split"), (String::new(), "x".to_string()));
    assert_eq!(split_env("имя=знач").expect("split"), ("имя".to_string(), "знач".to_string()));
}

#[test]
fn each_state_reads_plainly() {
    assert_eq!(describe(&State::NotStarted), "not started");
    assert_eq!(describe(&State::Running), "running");
    assert!(describe(&State::Exited { code: Some(7), signal: None, window: window() })
        .starts_with("exited: exit code 7; last window 24x80, 12 bytes"));
    assert!(describe(&State::Exited { code: None, signal: Some(9), window: window() })
        .contains("killed by signal 9"));
    assert!(describe(&State::Exited { code: None, signal: None, window: window() })
        .contains("ended for an unknown reason"));
}

#[test]
fn an_ending_reads_exactly() {
    assert_eq!(
        describe(&State::Exited { code: Some(-1), signal: Some(9), window: window() }),
        "exited: exit code -1; last window 24x80, 12 bytes"
    );
    let wide = Window { size: WindowSize { rows: 65535, cols: 0 }, contents: Vec::new() };
    assert_eq!(
        describe(&State::Exited { code: Some(i32::MIN), signal: None, window: wide }),
        "exited: exit code -2147483648; last window 65535x0, 0 bytes"
    );
    assert_eq!(
        describe(&State::Exited { code: None, signal: Some(15), window: window() }),
        "exited: killed by signal 15; last window 24x80, 12 bytes"
    );
}

#[test]
fn the_clipboard_comes_out_as_it_is_or_as_nothing_at_all() {
    let copied = b"\x00\xffhttps://example.org/authorize?code=true\n".to_vec();
    assert_eq!(clipboard_output(Some(copied.clone())), copied);
    assert_eq!(clipboard_output(Some(Vec::new())), Vec::<u8>::new());
    assert_eq!(clipboard_output(None), Vec::<u8>::new());
}
