//! Driving the one process by hand: the command line of `amctl`, what each of its
//! commands asks, and what it prints.
use vstd::prelude::*;
use vstd::string::{StrSliceExecFns, StringExecFns};

use crate::client::AgentMaster;
use crate::environment;
use crate::environment::Environment;
use crate::protocol::{
    ProcessSpec, ProcessSpecView, Request, RequestView, State, StateView, WindowSize,
};
use crate::text;

verus! {

/// Splits `NAME=VALUE` at its first equals sign.
pub fn split_env(pair: &str) -> (split: Result<(String, String), String>)
    ensures
        split is Ok <==> pair@.contains('='),
        split matches Ok((name, value)) ==> {
            &&& pair@ == name@ + seq!['='] + value@
            &&& !name@.contains('=')
        },
        split matches Err(complaint) ==> complaint@ == "expected NAME=VALUE"@,
{
    let len = pair.unicode_len();
    let mut i: usize = 0;
    while i < len
        invariant
            len == pair@.len(),
            i <= len,
            forall|j: int| 0 <= j < i ==> pair@[j] != '=',
        decreases len - i,
    {
        if pair.get_char(i) == '=' {
            let name = pair.substring_char(0, i).to_owned();
            let value = pair.substring_char(i + 1, len).to_owned();
            assert(pair@ =~= name@ + seq!['='] + value@);
            assert(pair@[i as int] == '=');
            return Ok((name, value));
        }
        i = i + 1;
    }
    Err("expected NAME=VALUE".to_owned())
}

/// A pair splits in one way only: what stands before its first equals sign, and what
/// stands after it.
pub proof fn law_a_pair_splits_one_way(
    name: Seq<char>,
    value: Seq<char>,
    other_name: Seq<char>,
    other_value: Seq<char>,
)
    requires
        !name.contains('='),
        !other_name.contains('='),
        name + seq!['='] + value == other_name + seq!['='] + other_value,
    ensures
        name == other_name,
        value == other_value,
{
    let pair = name + seq!['='] + value;
    let other = other_name + seq!['='] + other_value;
    assert(pair[name.len() as int] == '=');
    assert(other[other_name.len() as int] == '=');
    if name.len() < other_name.len() {
        assert(other_name[name.len() as int] == other[name.len() as int]);
    }
    if other_name.len() < name.len() {
        assert(name[other_name.len() as int] == pair[other_name.len() as int]);
    }
    assert(name =~= pair.take(name.len() as int));
    assert(other_name =~= other.take(other_name.len() as int));
    assert(value =~= pair.skip(name.len() as int + 1));
    assert(other_value =~= other.skip(other_name.len() as int + 1));
}

/// How a process ended, in words.
pub open spec fn ending_text(code: Option<i32>, signal: Option<i32>) -> Seq<char> {
    match (code, signal) {
        (Some(code), _) => "exit code "@ + text::signed_decimal(code as int),
        (None, Some(signal)) => "killed by signal "@ + text::signed_decimal(signal as int),
        (None, None) => "ended for an unknown reason"@,
    }
}

/// How a state reads.
pub open spec fn state_text(state: StateView) -> Seq<char> {
    match state {
        StateView::NotStarted => "not started"@,
        StateView::Running => "running"@,
        StateView::Exited { code, signal, window } => "exited: "@ + ending_text(code, signal)
            + "; last window "@ + text::decimal(window.size.rows as nat) + "x"@ + text::decimal(
            window.size.cols as nat,
        ) + ", "@ + text::decimal(window.contents.len()) + " bytes"@,
    }
}

/// Says a state in words.
pub fn describe(state: &State) -> (said: String)
    ensures
        said@ == state_text(state@),
{
    match state {
        State::NotStarted => "not started".to_owned(),
        State::Running => "running".to_owned(),
        State::Exited { code, signal, window } => {
            let ending = match (code, signal) {
                (Some(code), _) => "exit code ".to_owned().concat(
                    text::signed_decimal_text(*code).as_str(),
                ),
                (None, Some(signal)) => "killed by signal ".to_owned().concat(
                    text::signed_decimal_text(*signal).as_str(),
                ),
                (None, None) => "ended for an unknown reason".to_owned(),
            };
            let mut said = "exited: ".to_owned();
            said.append(ending.as_str());
            said.append("; last window ");
            said.append(text::decimal_text(window.size.rows as u64).as_str());
            said.append("x");
            said.append(text::decimal_text(window.size.cols as u64).as_str());
            said.append(", ");
            said.append(text::decimal_text(window.contents.len() as u64).as_str());
            said.append(" bytes");
            said
        },
    }
}

/// One of the commands of `amctl`.
#[derive(Debug, Clone, Copy, PartialEq, Eq)]
pub enum Subcommand {
    Start,
    Window,
    Input,
    Resize,
    Stop,
    State,
    Clipboard,
}

/// How a parameter is given.
#[derive(Debug, Clone, Copy, PartialEq, Eq)]
pub enum Shape {
    /// By its name and a value, at most once.
    Named,
    /// By its name and a value, any number of times.
    Repeated,
    /// By its name alone.
    Switch,
    /// By a value in its place.
    Positional,
    /// By all that follows a double dash.
    Trailing,
}

/// What the values of a parameter are.
#[derive(Debug, Clone, Copy, PartialEq, Eq)]
pub enum Takes {
    Text,
    Pair,
    Small,
    Large,
    Nothing,
}

/// A parameter of a command: what it is called, how it is given, what it takes, whether
/// it must be given, and what stands in for it where it is not.
#[derive(Debug, Clone, Copy, PartialEq, Eq)]
pub struct Parameter {
    pub name: &'static str,
    pub shape: Shape,
    pub takes: Takes,
    pub required: bool,
    pub default: Option<&'static str>,
}

/// A parameter with these properties.
#[verifier::allow_in_spec]
pub fn parameter(
    name: &'static str,
    shape: Shape,
    takes: Takes,
    required: bool,
    default: Option<&'static str>,
) -> Parameter
    returns
        (Parameter { name, shape, takes, required, default }),
{
    Parameter { name, shape, takes, required, default }
}

/// The parameters of a command, in the order in which their values are handed over.
pub open spec fn parameters_of(command: Subcommand) -> Seq<Parameter> {
    match command {
        Subcommand::Start => seq![
            parameter("cwd", Shape::Named, Takes::Text, false, Some(".")),
            parameter("env", Shape::Repeated, Takes::Pair, false, None),
            parameter("rows", Shape::Named, Takes::Small, false, Some("24")),
            parameter("cols", Shape::Named, Takes::Small, false, Some("80")),
            parameter("argv", Shape::Trailing, Takes::Text, true, None),
        ],
        Subcommand::Window => seq![
            parameter("freeze", Shape::Switch, Takes::Nothing, false, None),
        ],
        Subcommand::Input => seq![
            parameter("text", Shape::Positional, Takes::Text, false, None),
        ],
        Subcommand::Resize => seq![
            parameter("rows", Shape::Named, Takes::Small, true, None),
            parameter("cols", Shape::Named, Takes::Small, true, None),
        ],
        Subcommand::Stop => seq![
            parameter("grace-ms", Shape::Named, Takes::Large, false, Some("5000")),
        ],
        Subcommand::State => Seq::empty(),
        Subcommand::Clipboard => Seq::empty(),
    }
}

/// What a command is called.
pub open spec fn name_of(command: Subcommand) -> Seq<char> {
    match command {
        Subcommand::Start => "start"@,
        Subcommand::Window => "window"@,
        Subcommand::Input => "input"@,
        Subcommand::Resize => "resize"@,
        Subcommand::Stop => "stop"@,
        Subcommand::State => "state"@,
        Subcommand::Clipboard => "clipboard"@,
    }
}

/// No two commands are called the same.
pub proof fn law_commands_go_by_different_names(one: Subcommand, other: Subcommand)
    ensures
        name_of(one) == name_of(other) <==> one == other,
{
    reveal_strlit("start");
    reveal_strlit("window");
    reveal_strlit("input");
    reveal_strlit("resize");
    reveal_strlit("stop");
    reveal_strlit("state");
    reveal_strlit("clipboard");
    let a = name_of(one);
    let b = name_of(other);
    if one != other && a.len() == b.len() {
        assert(a[0] != b[0] || a[2] != b[2] || a[3] != b[3]);
    }
}

/// The command line of every command is well formed: no two of its parameters are called
/// the same, one that must be given has nothing that stands in for it, only a switch takes
/// nothing, and only the last one takes all that follows.
pub proof fn law_the_command_line_is_well_formed(command: Subcommand, i: int, j: int)
    requires
        0 <= i < parameters_of(command).len(),
        0 <= j < parameters_of(command).len(),
    ensures
        parameters_of(command)[i].name@ == parameters_of(command)[j].name@ <==> i == j,
        parameters_of(command)[i].required ==> parameters_of(command)[i].default is None,
        parameters_of(command)[i].shape is Switch <==> parameters_of(command)[i].takes is Nothing,
        parameters_of(command)[i].shape is Trailing ==> i == parameters_of(command).len() - 1,
{
    reveal_strlit("cwd");
    reveal_strlit("env");
    reveal_strlit("rows");
    reveal_strlit("cols");
    reveal_strlit("argv");
    if i != j {
        let a = parameters_of(command)[i].name@;
        let b = parameters_of(command)[j].name@;
        assert(a.len() != b.len() || a[0] != b[0]);
    }
}

impl Subcommand {
    /// What the command is called.
    pub fn name(self) -> (name: &'static str)
        ensures
            name@ == name_of(self),
    {
        match self {
            Subcommand::Start => "start",
            Subcommand::Window => "window",
            Subcommand::Input => "input",
            Subcommand::Resize => "resize",
            Subcommand::Stop => "stop",
            Subcommand::State => "state",
            Subcommand::Clipboard => "clipboard",
        }
    }

    /// All commands.
    pub fn all() -> (all: Vec<Subcommand>)
        ensures
            all@ == seq![
                Subcommand::Start,
                Subcommand::Window,
                Subcommand::Input,
                Subcommand::Resize,
                Subcommand::Stop,
                Subcommand::State,
                Subcommand::Clipboard,
            ],
    {
        vec![
            Subcommand::Start,
            Subcommand::Window,
            Subcommand::Input,
            Subcommand::Resize,
            Subcommand::Stop,
            Subcommand::State,
            Subcommand::Clipboard,
        ]
    }

    /// The parameters of the command, in the order in which their values are handed over.
    pub fn parameters(self) -> (parameters: Vec<Parameter>)
        ensures
            parameters@ == parameters_of(self),
    {
        match self {
            Subcommand::Start => vec![
                parameter("cwd", Shape::Named, Takes::Text, false, Some(".")),
                parameter("env", Shape::Repeated, Takes::Pair, false, None),
                parameter("rows", Shape::Named, Takes::Small, false, Some("24")),
                parameter("cols", Shape::Named, Takes::Small, false, Some("80")),
                parameter("argv", Shape::Trailing, Takes::Text, true, None),
            ],
            Subcommand::Window => vec![
                parameter("freeze", Shape::Switch, Takes::Nothing, false, None),
            ],
            Subcommand::Input => vec![
                parameter("text", Shape::Positional, Takes::Text, false, None),
            ],
            Subcommand::Resize => vec![
                parameter("rows", Shape::Named, Takes::Small, true, None),
                parameter("cols", Shape::Named, Takes::Small, true, None),
            ],
            Subcommand::Stop => vec![
                parameter("grace-ms", Shape::Named, Takes::Large, false, Some("5000")),
            ],
            Subcommand::State => Vec::new(),
            Subcommand::Clipboard => Vec::new(),
        }
    }
}

/// A value that a parameter was given.
#[derive(Debug, Clone, PartialEq, Eq)]
pub enum Value {
    Text(String),
    Pair(String, String),
    Small(u16),
    Large(u64),
    Switched(bool),
}

/// What a `Value` says.
pub enum ValueView {
    Text(Seq<char>),
    Pair(Seq<char>, Seq<char>),
    Small(u16),
    Large(u64),
    Switched(bool),
}

impl View for Value {
    type V = ValueView;

    open spec fn view(&self) -> ValueView {
        match self {
            Value::Text(text) => ValueView::Text(text@),
            Value::Pair(name, value) => ValueView::Pair(name@, value@),
            Value::Small(number) => ValueView::Small(*number),
            Value::Large(number) => ValueView::Large(*number),
            Value::Switched(on) => ValueView::Switched(*on),
        }
    }
}

/// A command with what it was given.
#[derive(Debug, Clone, PartialEq, Eq)]
pub enum Command {
    Start { cwd: String, env: Vec<(String, String)>, rows: u16, cols: u16, argv: Vec<String> },
    Window { freeze: bool },
    Input { text: Option<String> },
    Resize { rows: u16, cols: u16 },
    Stop { grace_ms: u64 },
    State,
    Clipboard,
}

/// What a `Command` says.
pub enum CommandView {
    Start {
        cwd: Seq<char>,
        env: Seq<(Seq<char>, Seq<char>)>,
        rows: u16,
        cols: u16,
        argv: Seq<Seq<char>>,
    },
    Window { freeze: bool },
    Input { text: Option<Seq<char>> },
    Resize { rows: u16, cols: u16 },
    Stop { grace_ms: u64 },
    State,
    Clipboard,
}

impl View for Command {
    type V = CommandView;

    open spec fn view(&self) -> CommandView {
        match self {
            Command::Start { cwd, env, rows, cols, argv } => CommandView::Start {
                cwd: cwd@,
                env: environment::spelled(env@),
                rows: *rows,
                cols: *cols,
                argv: text::texts(argv@),
            },
            Command::Window { freeze } => CommandView::Window { freeze: *freeze },
            Command::Input { text } => CommandView::Input {
                text: crate::base64_bytes_or_nothing::said(*text),
            },
            Command::Resize { rows, cols } => CommandView::Resize { rows: *rows, cols: *cols },
            Command::Stop { grace_ms } => CommandView::Stop { grace_ms: *grace_ms },
            Command::State => CommandView::State,
            Command::Clipboard => CommandView::Clipboard,
        }
    }
}

/// What the values that one parameter was given say.
pub open spec fn values(given: Seq<Value>) -> Seq<ValueView> {
    given.map_values(|value: Value| value@)
}

/// What the values that each parameter was given say.
pub open spec fn all_values(given: Seq<Vec<Value>>) -> Seq<Seq<ValueView>> {
    given.map_values(|list: Vec<Value>| values(list@))
}

/// The texts that a list of values holds, if it holds nothing else.
pub open spec fn texts_in(given: Seq<ValueView>) -> Option<Seq<Seq<char>>> {
    if forall|i: int| 0 <= i < given.len() ==> (#[trigger] given[i]) is Text {
        Some(given.map_values(|value: ValueView| value->Text_0))
    } else {
        None
    }
}

/// The pairs that a list of values holds, if it holds nothing else.
pub open spec fn pairs_in(given: Seq<ValueView>) -> Option<Seq<(Seq<char>, Seq<char>)>> {
    if forall|i: int| 0 <= i < given.len() ==> (#[trigger] given[i]) is Pair {
        Some(given.map_values(|value: ValueView| (value->Pair_0, value->Pair_1)))
    } else {
        None
    }
}

/// The one value that a list holds, if it holds one.
pub open spec fn only(given: Seq<ValueView>) -> Option<ValueView> {
    if given.len() == 1 {
        Some(given[0])
    } else {
        None
    }
}

/// The command that a name and its parameters' values spell, if they spell one.
pub open spec fn command_of(command: Subcommand, given: Seq<Seq<ValueView>>) -> Option<
    CommandView,
> {
    if given.len() != parameters_of(command).len() {
        None
    } else {
        match command {
            Subcommand::Start => match (
                only(given[0]),
                pairs_in(given[1]),
                only(given[2]),
                only(given[3]),
                texts_in(given[4]),
            ) {
                (
                    Some(ValueView::Text(cwd)),
                    Some(env),
                    Some(ValueView::Small(rows)),
                    Some(ValueView::Small(cols)),
                    Some(argv),
                ) => Some(CommandView::Start { cwd, env, rows, cols, argv }),
                _ => None,
            },
            Subcommand::Window => match only(given[0]) {
                Some(ValueView::Switched(freeze)) => Some(CommandView::Window { freeze }),
                _ => None,
            },
            Subcommand::Input => if given[0].len() == 0 {
                Some(CommandView::Input { text: None })
            } else {
                match only(given[0]) {
                    Some(ValueView::Text(text)) => Some(CommandView::Input { text: Some(text) }),
                    _ => None,
                }
            },
            Subcommand::Resize => match (only(given[0]), only(given[1])) {
                (
                    Some(ValueView::Small(rows)),
                    Some(ValueView::Small(cols)),
                ) => Some(CommandView::Resize { rows, cols }),
                _ => None,
            },
            Subcommand::Stop => match only(given[0]) {
                Some(ValueView::Large(grace_ms)) => Some(CommandView::Stop { grace_ms }),
                _ => None,
            },
            Subcommand::State => Some(CommandView::State),
            Subcommand::Clipboard => Some(CommandView::Clipboard),
        }
    }
}

fn texts_given(given: &Vec<Value>) -> (found: Option<Vec<String>>)
    ensures
        found is Some <==> texts_in(values(given@)) is Some,
        found matches Some(found) ==> texts_in(values(given@)) == Some(text::texts(found@)),
{
    let ghost said = values(given@);
    let mut found: Vec<String> = Vec::new();
    let mut i: usize = 0;
    while i < given.len()
        invariant
            i <= given.len(),
            said == values(given@),
            found.len() == i,
            forall|j: int| 0 <= j < i ==> #[trigger] said[j] == ValueView::Text(found@[j]@),
        decreases given.len() - i,
    {
        assert(said[i as int] == given@[i as int]@);
        match &given[i] {
            Value::Text(text) => {
                found.push(text.clone());
            },
            _ => {
                return None;
            },
        }
        i = i + 1;
    }
    assert(said.map_values(|value: ValueView| value->Text_0) =~= text::texts(found@));
    Some(found)
}

fn pairs_given(given: &Vec<Value>) -> (found: Option<Vec<(String, String)>>)
    ensures
        found is Some <==> pairs_in(values(given@)) is Some,
        found matches Some(found) ==> pairs_in(values(given@)) == Some(
            environment::spelled(found@),
        ),
{
    let ghost said = values(given@);
    let mut found: Vec<(String, String)> = Vec::new();
    let mut i: usize = 0;
    while i < given.len()
        invariant
            i <= given.len(),
            said == values(given@),
            found.len() == i,
            forall|j: int|
                0 <= j < i ==> #[trigger] said[j] == ValueView::Pair(found@[j].0@, found@[j].1@),
        decreases given.len() - i,
    {
        assert(said[i as int] == given@[i as int]@);
        match &given[i] {
            Value::Pair(name, value) => {
                found.push((name.clone(), value.clone()));
            },
            _ => {
                return None;
            },
        }
        i = i + 1;
    }
    assert(said.map_values(|value: ValueView| (value->Pair_0, value->Pair_1))
        =~= environment::spelled(found@));
    Some(found)
}

fn only_given(given: &Vec<Value>) -> (found: Option<&Value>)
    ensures
        found is Some <==> only(values(given@)) is Some,
        found matches Some(found) ==> only(values(given@)) == Some(found@),
{
    if given.len() == 1 {
        Some(&given[0])
    } else {
        None
    }
}

/// What a command that may not have been spelled says.
pub open spec fn spelled_command(command: Option<Command>) -> Option<CommandView> {
    match command {
        Some(command) => Some(command@),
        None => None,
    }
}

impl Command {
    /// Reads the command that a name and its parameters' values spell. The values come
    /// in the order of the parameters, a list for each.
    pub fn read(name: Subcommand, given: &Vec<Vec<Value>>) -> (command: Option<Command>)
        ensures
            spelled_command(command) == command_of(name, all_values(given@)),
    {
        let ghost said = all_values(given@);
        assert(forall|i: int| 0 <= i < given.len() ==> #[trigger] said[i] == values(given@[i]@));
        if given.len() != name.parameters().len() {
            return None;
        }
        match name {
            Subcommand::Start => match (
                only_given(&given[0]),
                pairs_given(&given[1]),
                only_given(&given[2]),
                only_given(&given[3]),
                texts_given(&given[4]),
            ) {
                (
                    Some(Value::Text(cwd)),
                    Some(env),
                    Some(Value::Small(rows)),
                    Some(Value::Small(cols)),
                    Some(argv),
                ) => Some(
                    Command::Start { cwd: cwd.clone(), env, rows: *rows, cols: *cols, argv },
                ),
                _ => None,
            },
            Subcommand::Window => match only_given(&given[0]) {
                Some(Value::Switched(freeze)) => Some(Command::Window { freeze: *freeze }),
                _ => None,
            },
            Subcommand::Input => if given[0].len() == 0 {
                Some(Command::Input { text: None })
            } else {
                match only_given(&given[0]) {
                    Some(Value::Text(text)) => Some(Command::Input { text: Some(text.clone()) }),
                    _ => None,
                }
            },
            Subcommand::Resize => match (only_given(&given[0]), only_given(&given[1])) {
                (Some(Value::Small(rows)), Some(Value::Small(cols))) => Some(
                    Command::Resize { rows: *rows, cols: *cols },
                ),
                _ => None,
            },
            Subcommand::Stop => match only_given(&given[0]) {
                Some(Value::Large(grace_ms)) => Some(Command::Stop { grace_ms: *grace_ms }),
                _ => None,
            },
            Subcommand::State => Some(Command::State),
            Subcommand::Clipboard => Some(Command::Clipboard),
        }
    }
}

/// What a command asks, `typed` being what was read where the command gives nothing to
/// type, or why it asks nothing.
pub open spec fn request_of(command: CommandView, typed: Seq<u8>) -> Result<
    RequestView,
    Seq<char>,
> {
    match command {
        CommandView::Start { cwd, env, rows, cols, argv } => if argv.len() == 0 {
            Err("no command given"@)
        } else {
            Ok(
                RequestView::Start(
                    ProcessSpecView {
                        command: argv[0],
                        args: argv.drop_first(),
                        cwd,
                        env: environment::last_of_each(env),
                        size: WindowSize { rows, cols },
                    },
                ),
            )
        },
        CommandView::Window { .. } => Ok(RequestView::Window),
        CommandView::Input { text: Some(text) } => Ok(
            RequestView::Input { data: vstd::utf8::encode_utf8(text) },
        ),
        CommandView::Input { text: None } => Ok(RequestView::Input { data: typed }),
        CommandView::Resize { rows, cols } => Ok(
            RequestView::Resize { size: WindowSize { rows, cols } },
        ),
        CommandView::Stop { grace_ms } => Ok(RequestView::Stop { grace_ms }),
        CommandView::State => Ok(RequestView::State),
        CommandView::Clipboard => Ok(RequestView::Clipboard),
    }
}

/// What came of making a request.
pub open spec fn asked_view(asked: Result<Request, String>) -> Result<RequestView, Seq<char>> {
    match asked {
        Ok(request) => Ok(request@),
        Err(complaint) => Err(complaint@),
    }
}

impl Command {
    /// Tells whether what is to be typed has to be read first.
    pub fn reads_input(&self) -> (reads: bool)
        ensures
            reads == (self@ == (CommandView::Input { text: None })),
    {
        match self {
            Command::Input { text: None } => true,
            _ => false,
        }
    }

    /// Makes the request that the command asks, `typed` being what was read where the
    /// command gives nothing to type.
    pub fn request(&self, typed: Vec<u8>) -> (asked: Result<Request, String>)
        ensures
            asked_view(asked) == request_of(self@, typed@),
    {
        match self {
            Command::Start { cwd, env, rows, cols, argv } => {
                if argv.len() == 0 {
                    return Err("no command given".to_owned());
                }
                let args = text::copy_texts(argv, 1);
                assert(text::texts(argv@).skip(1) =~= text::texts(argv@).drop_first());
                let spec = ProcessSpec {
                    command: argv[0].clone(),
                    args,
                    cwd: cwd.clone(),
                    env: Environment::from_pairs(env),
                    size: WindowSize { rows: *rows, cols: *cols },
                };
                Ok(AgentMaster::start_request(spec))
            },
            Command::Window { .. } => Ok(AgentMaster::window_request()),
            Command::Input { text: Some(text) } => Ok(
                AgentMaster::input_request(text.as_str().as_bytes()),
            ),
            Command::Input { text: None } => Ok(AgentMaster::input_request(typed.as_slice())),
            Command::Resize { rows, cols } => Ok(
                AgentMaster::resize_request(WindowSize { rows: *rows, cols: *cols }),
            ),
            Command::Stop { grace_ms } => Ok(AgentMaster::stop_request(*grace_ms as u128)),
            Command::State => Ok(AgentMaster::state_request()),
            Command::Clipboard => Ok(AgentMaster::clipboard_request()),
        }
    }
}

/// Gives the bytes that the clipboard comes out as: as they are, and none where nothing
/// was copied.
pub fn clipboard_output(data: Option<Vec<u8>>) -> (output: Vec<u8>)
    ensures
        output@ == match crate::base64_bytes_or_nothing::held(data) {
            Some(copied) => copied,
            None => Seq::empty(),
        },
{
    match data {
        Some(copied) => copied,
        None => Vec::new(),
    }
}

/// The end of a process reads as its code where it has one, as its signal where it has only
/// that, and as unknown where it has neither.
pub proof fn law_an_ending_reads_as_it_was(code: Option<i32>, signal: Option<i32>)
    ensures
        code matches Some(code) ==> ending_text(Some(code), signal) == "exit code "@
            + text::signed_decimal(code as int),
        signal matches Some(signal) ==> ending_text(None, Some(signal)) == "killed by signal "@
            + text::signed_decimal(signal as int),
        ending_text(None, None) == "ended for an unknown reason"@,
{
}

/// A state reads as what it is; an end with how it was, the size of the last window, its rows
/// first, and how many bytes paint it.
pub proof fn law_a_state_reads_as_what_it_is(state: StateView)
    ensures
        match state {
            StateView::NotStarted => state_text(state) == "not started"@,
            StateView::Running => state_text(state) == "running"@,
            StateView::Exited { code, signal, window } => state_text(state) == "exited: "@
                + ending_text(code, signal) + "; last window "@ + text::decimal(
                window.size.rows as nat,
            ) + "x"@ + text::decimal(window.size.cols as nat) + ", "@ + text::decimal(
                window.contents.len(),
            ) + " bytes"@,
        },
{
}

/// Each command goes by its own name.
pub proof fn law_a_command_goes_by_its_name(command: Subcommand)
    ensures
        name_of(command) == match command {
            Subcommand::Start => "start"@,
            Subcommand::Window => "window"@,
            Subcommand::Input => "input"@,
            Subcommand::Resize => "resize"@,
            Subcommand::Stop => "stop"@,
            Subcommand::State => "state"@,
            Subcommand::Clipboard => "clipboard"@,
        },
{
}

/// A start takes a directory, any number of variables, a window of 24 rows and 80 columns unless
/// it is told otherwise, and a command that must be given.
pub proof fn law_a_start_needs_a_command_and_fills_in_the_rest()
    ensures
        parameters_of(Subcommand::Start).len() == 5,
        parameters_of(Subcommand::Start)[0] == (Parameter {
            name: "cwd",
            shape: Shape::Named,
            takes: Takes::Text,
            required: false,
            default: Some("."),
        }),
        parameters_of(Subcommand::Start)[1] == (Parameter {
            name: "env",
            shape: Shape::Repeated,
            takes: Takes::Pair,
            required: false,
            default: None,
        }),
        parameters_of(Subcommand::Start)[2] == (Parameter {
            name: "rows",
            shape: Shape::Named,
            takes: Takes::Small,
            required: false,
            default: Some("24"),
        }),
        parameters_of(Subcommand::Start)[3] == (Parameter {
            name: "cols",
            shape: Shape::Named,
            takes: Takes::Small,
            required: false,
            default: Some("80"),
        }),
        parameters_of(Subcommand::Start)[4] == (Parameter {
            name: "argv",
            shape: Shape::Trailing,
            takes: Takes::Text,
            required: true,
            default: None,
        }),
{
}

/// A window may be frozen, an input given its text, a resize has to be given both sizes, a stop
/// waits five seconds unless it is told otherwise, and the rest take nothing.
pub proof fn law_the_other_commands_take_what_they_need()
    ensures
        parameters_of(Subcommand::Window) == seq![
            Parameter {
                name: "freeze",
                shape: Shape::Switch,
                takes: Takes::Nothing,
                required: false,
                default: None,
            },
        ],
        parameters_of(Subcommand::Input) == seq![
            Parameter {
                name: "text",
                shape: Shape::Positional,
                takes: Takes::Text,
                required: false,
                default: None,
            },
        ],
        parameters_of(Subcommand::Resize) == seq![
            Parameter {
                name: "rows",
                shape: Shape::Named,
                takes: Takes::Small,
                required: true,
                default: None,
            },
            Parameter {
                name: "cols",
                shape: Shape::Named,
                takes: Takes::Small,
                required: true,
                default: None,
            },
        ],
        parameters_of(Subcommand::Stop) == seq![
            Parameter {
                name: "grace-ms",
                shape: Shape::Named,
                takes: Takes::Large,
                required: false,
                default: Some("5000"),
            },
        ],
        parameters_of(Subcommand::State).len() == 0,
        parameters_of(Subcommand::Clipboard).len() == 0,
{
}

/// A list of values holds texts where every value is one, and then each of them in order.
pub proof fn law_texts_are_found_in_order(given: Seq<ValueView>)
    ensures
        texts_in(given) is Some <==> forall|i: int|
            0 <= i < given.len() ==> (#[trigger] given[i]) is Text,
        texts_in(given) matches Some(found) ==> found.len() == given.len() && forall|i: int|
            0 <= i < given.len() ==> given[i] == ValueView::Text(#[trigger] found[i]),
{
}

/// A list of values holds pairs where every value is one, and then each of them in order.
pub proof fn law_pairs_are_found_in_order(given: Seq<ValueView>)
    ensures
        pairs_in(given) is Some <==> forall|i: int|
            0 <= i < given.len() ==> (#[trigger] given[i]) is Pair,
        pairs_in(given) matches Some(found) ==> found.len() == given.len() && forall|i: int|
            0 <= i < given.len() ==> given[i] == ValueView::Pair(
                (#[trigger] found[i]).0,
                found[i].1,
            ),
{
}

/// A list of values holds one value where it holds no other.
pub proof fn law_one_value_is_the_only_one(given: Seq<ValueView>)
    ensures
        only(given) matches Some(value) ==> given == seq![value],
        only(given) is Some <==> given.len() == 1,
{
    if given.len() == 1 {
        assert(given =~= seq![given[0]]);
    }
}

/// What spells a start is the start of exactly what was given: one directory, the variables in
/// order, the rows and the columns each in their place, and the command line in order.
pub proof fn law_a_start_is_read_as_it_was_given(given: Seq<Seq<ValueView>>)
    ensures
        command_of(Subcommand::Start, given) is Some ==> given.len() == 5,
        command_of(Subcommand::Start, given) matches Some(command) ==> {
            &&& command matches CommandView::Start { cwd, env, rows, cols, argv }
            &&& given[0] == seq![ValueView::Text(cwd)]
            &&& given[1] == env.map_values(
                |pair: (Seq<char>, Seq<char>)| ValueView::Pair(pair.0, pair.1),
            )
            &&& given[2] == seq![ValueView::Small(rows)]
            &&& given[3] == seq![ValueView::Small(cols)]
            &&& given[4] == argv.map_values(|text: Seq<char>| ValueView::Text(text))
        },
{
    if let Some(CommandView::Start { cwd, env, rows, cols, argv }) = command_of(
        Subcommand::Start,
        given,
    ) {
        law_one_value_is_the_only_one(given[0]);
        law_one_value_is_the_only_one(given[2]);
        law_one_value_is_the_only_one(given[3]);
        law_pairs_are_found_in_order(given[1]);
        law_texts_are_found_in_order(given[4]);
        assert(given[1] =~= env.map_values(
            |pair: (Seq<char>, Seq<char>)| ValueView::Pair(pair.0, pair.1),
        ));
        assert(given[4] =~= argv.map_values(|text: Seq<char>| ValueView::Text(text)));
    }
}

/// A start that was given all that it takes is read.
pub proof fn law_a_start_that_was_given_all_is_read(
    cwd: Seq<char>,
    env: Seq<(Seq<char>, Seq<char>)>,
    rows: u16,
    cols: u16,
    argv: Seq<Seq<char>>,
)
    ensures
        command_of(
            Subcommand::Start,
            seq![
                seq![ValueView::Text(cwd)],
                env.map_values(|pair: (Seq<char>, Seq<char>)| ValueView::Pair(pair.0, pair.1)),
                seq![ValueView::Small(rows)],
                seq![ValueView::Small(cols)],
                argv.map_values(|text: Seq<char>| ValueView::Text(text)),
            ],
        ) == Some(CommandView::Start { cwd, env, rows, cols, argv }),
{
    let pairs = env.map_values(|pair: (Seq<char>, Seq<char>)| ValueView::Pair(pair.0, pair.1));
    let texts = argv.map_values(|text: Seq<char>| ValueView::Text(text));
    law_pairs_are_found_in_order(pairs);
    law_texts_are_found_in_order(texts);
    assert(pairs_in(pairs)->0 =~= env) by {
        assert forall|i: int| 0 <= i < env.len() implies #[trigger] (pairs_in(pairs)->0)[i]
            == env[i] by {
            assert(pairs[i] == ValueView::Pair(env[i].0, env[i].1));
        }
    }
    assert(texts_in(texts)->0 =~= argv) by {
        assert forall|i: int| 0 <= i < argv.len() implies #[trigger] (texts_in(texts)->0)[i]
            == argv[i] by {
            assert(texts[i] == ValueView::Text(argv[i]));
        }
    }
}

/// What spells any other command is that command with exactly what was given.
pub proof fn law_the_other_commands_are_read_as_they_were_given(
    freeze: bool,
    text: Seq<char>,
    rows: u16,
    cols: u16,
    grace_ms: u64,
)
    ensures
        command_of(Subcommand::Window, seq![seq![ValueView::Switched(freeze)]]) == Some(
            CommandView::Window { freeze },
        ),
        command_of(Subcommand::Input, seq![seq![ValueView::Text(text)]]) == Some(
            CommandView::Input { text: Some(text) },
        ),
        command_of(Subcommand::Input, seq![Seq::empty()]) == Some(
            CommandView::Input { text: None },
        ),
        command_of(
            Subcommand::Resize,
            seq![seq![ValueView::Small(rows)], seq![ValueView::Small(cols)]],
        ) == Some(CommandView::Resize { rows, cols }),
        command_of(Subcommand::Stop, seq![seq![ValueView::Large(grace_ms)]]) == Some(
            CommandView::Stop { grace_ms },
        ),
        command_of(Subcommand::State, Seq::empty()) == Some(CommandView::State),
        command_of(Subcommand::Clipboard, Seq::empty()) == Some(CommandView::Clipboard),
{
}

/// Nothing is read as another command than the one named, nor from other values than it takes.
pub proof fn law_only_what_a_command_takes_is_read(
    command: Subcommand,
    given: Seq<Seq<ValueView>>,
)
    ensures
        command_of(command, given) matches Some(read) ==> match read {
            CommandView::Start { .. } => command is Start,
            CommandView::Window { freeze } => command is Window && given == seq![
                seq![ValueView::Switched(freeze)],
            ],
            CommandView::Input { text: Some(text) } => command is Input && given == seq![
                seq![ValueView::Text(text)],
            ],
            CommandView::Input { text: None } => command is Input && given == seq![
                Seq::<ValueView>::empty(),
            ],
            CommandView::Resize { rows, cols } => command is Resize && given == seq![
                seq![ValueView::Small(rows)],
                seq![ValueView::Small(cols)],
            ],
            CommandView::Stop { grace_ms } => command is Stop && given == seq![
                seq![ValueView::Large(grace_ms)],
            ],
            CommandView::State => command is State && given.len() == 0,
            CommandView::Clipboard => command is Clipboard && given.len() == 0,
        },
{
    if let Some(read) = command_of(command, given) {
        if given.len() > 0 {
            law_one_value_is_the_only_one(given[0]);
            assert(given[0].len() == 0 ==> given[0] =~= Seq::empty());
        }
        if given.len() > 1 {
            law_one_value_is_the_only_one(given[1]);
            assert(given.len() == 2 ==> given =~= seq![given[0], given[1]]);
        }
        assert(given.len() == 1 ==> given =~= seq![given[0]]);
    }
}

/// A start asks for exactly what it was given: its command and its arguments are its command
/// line from the first word to the last, in the directory, with the variables and in the window
/// that it names. A start of nothing asks nothing.
pub proof fn law_a_start_asks_for_all_that_it_was_given(
    cwd: Seq<char>,
    env: Seq<(Seq<char>, Seq<char>)>,
    rows: u16,
    cols: u16,
    argv: Seq<Seq<char>>,
    typed: Seq<u8>,
)
    ensures
        ({
            let asked = request_of(CommandView::Start { cwd, env, rows, cols, argv }, typed);
            if argv.len() == 0 {
                asked == Result::<RequestView, Seq<char>>::Err("no command given"@)
            } else {
                &&& asked matches Ok(RequestView::Start(spec))
                &&& seq![spec.command] + spec.args == argv
                &&& spec.cwd == cwd
                &&& spec.size.rows == rows
                &&& spec.size.cols == cols
                &&& spec.env == environment::last_of_each(env)
            }
        }),
{
    if argv.len() > 0 {
        assert(seq![argv[0]] + argv.drop_first() =~= argv);
    }
}

/// The variables that a start asks for are those that it was given, each with the value that it
/// was given last.
pub proof fn law_a_start_asks_for_the_last_value_of_each_variable(
    cwd: Seq<char>,
    env: Seq<(Seq<char>, Seq<char>)>,
    rows: u16,
    cols: u16,
    argv: Seq<Seq<char>>,
    typed: Seq<u8>,
    i: int,
    name: Seq<char>,
)
    requires
        argv.len() > 0,
    ensures
        request_of(CommandView::Start { cwd, env, rows, cols, argv }, typed) matches Ok(
            RequestView::Start(spec),
        ) && {
            &&& spec.env.dom().contains(name) <==> exists|j: int|
                0 <= j < env.len() && (#[trigger] env[j]).0 == name
            &&& 0 <= i < env.len() && (forall|j: int|
                i < j < env.len() ==> (#[trigger] env[j]).0 != env[i].0) ==> spec.env.contains_pair(
                env[i].0,
                env[i].1,
            )
        },
{
    environment::law_only_given_names_have_values(env, name);
    if 0 <= i < env.len() && (forall|j: int|
        i < j < env.len() ==> (#[trigger] env[j]).0 != env[i].0) {
        environment::law_the_last_of_a_name_wins(env, i);
    }
}

/// An input that was given a text types the whole of it, its last character too; one that was
/// not types every byte that was read.
pub proof fn law_an_input_types_all_that_it_was_given(text: Seq<char>, typed: Seq<u8>)
    ensures
        request_of(CommandView::Input { text: Some(text) }, typed) matches Ok(RequestView::Input {
            data,
        }) && data == vstd::utf8::encode_utf8(text) && vstd::utf8::decode_utf8(data) == text,
        request_of(CommandView::Input { text: None }, typed) == Result::<
            RequestView,
            Seq<char>,
        >::Ok(RequestView::Input { data: typed }),
{
    vstd::utf8::encode_utf8_decode_utf8(text);
}

/// Every other command asks what it is called after, with what it was given, whatever was read.
pub proof fn law_the_other_commands_ask_what_they_are_called_after(
    freeze: bool,
    rows: u16,
    cols: u16,
    grace_ms: u64,
    typed: Seq<u8>,
)
    ensures
        request_of(CommandView::Window { freeze }, typed) == Result::<RequestView, Seq<char>>::Ok(
            RequestView::Window,
        ),
        request_of(CommandView::Resize { rows, cols }, typed) == Result::<
            RequestView,
            Seq<char>,
        >::Ok(RequestView::Resize { size: WindowSize { rows, cols } }),
        request_of(CommandView::Stop { grace_ms }, typed) == Result::<RequestView, Seq<char>>::Ok(
            RequestView::Stop { grace_ms },
        ),
        request_of(CommandView::State, typed) == Result::<RequestView, Seq<char>>::Ok(
            RequestView::State,
        ),
        request_of(CommandView::Clipboard, typed) == Result::<RequestView, Seq<char>>::Ok(
            RequestView::Clipboard,
        ),
{
}

} // verus!
