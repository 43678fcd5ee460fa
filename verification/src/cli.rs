//! The command-line grammar: what each list of arguments asks for.

use vstd::prelude::*;
use vstd::string::*;
use crate::due::{civil_of_text, parse_civil, CivilDateTime};
use crate::text::{is_text, lowercase_of, number_of_text, parse_number, texts};
use crate::todo::{parsed_priority, Priority};

verus! {

/// What the user asks for.
#[derive(Debug)]
pub enum Command {
    /// Add a new task.
    Add { text: String, priority: Option<Priority>, tags: Vec<String>, due: Option<CivilDateTime> },
    /// List the tasks that pass the filters.
    List { priority: Option<Priority>, tag: Option<String>, due_before: Option<CivilDateTime> },
    /// Mark a task complete.
    Done { id: usize },
    /// Delete a task.
    Remove { id: usize },
    /// Flip a task's completion flag.
    Toggle { id: usize },
}

/// A parsed command line.
#[derive(Debug)]
pub struct Cli {
    pub command: Command,
}

/// The mathematical value of a command.
pub ghost enum CommandView {
    Add {
        text: Seq<char>,
        priority: Option<Priority>,
        tags: Seq<Seq<char>>,
        due: Option<CivilDateTime>,
    },
    List { priority: Option<Priority>, tag: Option<Seq<char>>, due_before: Option<CivilDateTime> },
    Done { id: usize },
    Remove { id: usize },
    Toggle { id: usize },
}

/// The text of an optional string.
pub open spec fn optional_text(s: Option<String>) -> Option<Seq<char>> {
    match s {
        Some(t) => Some(t@),
        None => None,
    }
}

impl View for Command {
    type V = CommandView;

    open spec fn view(&self) -> CommandView {
        match *self {
            Command::Add { text, priority, tags, due } => CommandView::Add {
                text: text@,
                priority,
                tags: texts(tags@),
                due,
            },
            Command::List { priority, tag, due_before } => CommandView::List {
                priority,
                tag: optional_text(tag),
                due_before,
            },
            Command::Done { id } => CommandView::Done { id },
            Command::Remove { id } => CommandView::Remove { id },
            Command::Toggle { id } => CommandView::Toggle { id },
        }
    }
}

impl View for Cli {
    type V = CommandView;

    open spec fn view(&self) -> CommandView {
        self.command@
    }
}

/// The civil time of a `--due` or `--due-before` value, given what the date
/// reader made of it, or the complaint about the value.
pub open spec fn due_value(given: Seq<char>, read: Option<CivilDateTime>) -> Result<
    CivilDateTime,
    Seq<char>,
> {
    match read {
        Some(c) => Ok(c),
        None => Err("Invalid date and time '"@ + given + "'"@),
    }
}

/// What the options after `add <text>` ask for, read from position `i` on
/// with the options seen so far.
pub open spec fn add_options(
    args: Seq<Seq<char>>,
    i: int,
    priority: Option<Priority>,
    tags: Seq<Seq<char>>,
    due: Option<CivilDateTime>,
) -> Result<CommandView, Seq<char>>
    decreases args.len() - i,
{
    if i < 0 || i >= args.len() {
        Ok(CommandView::Add { text: args[1], priority, tags, due })
    } else if args[i] == "--priority"@ {
        if i + 1 >= args.len() {
            Err("Missing value for --priority"@)
        } else {
            match parsed_priority(lowercase_of(args[i + 1]), args[i + 1]) {
                Ok(p) => add_options(args, i + 2, Some(p), tags, due),
                Err(e) => Err(e),
            }
        }
    } else if args[i] == "--tag"@ {
        if i + 1 >= args.len() {
            Err("Missing value for --tag"@)
        } else {
            add_options(args, i + 2, priority, tags.push(args[i + 1]), due)
        }
    } else if args[i] == "--due"@ {
        if i + 1 >= args.len() {
            Err("Missing value for --due"@)
        } else {
            match due_value(args[i + 1], civil_of_text(args[i + 1])) {
                Ok(c) => add_options(args, i + 2, priority, tags, Some(c)),
                Err(e) => Err(e),
            }
        }
    } else {
        Err("Unknown argument: "@ + args[i])
    }
}

/// What the options after `list` ask for, read from position `i` on with
/// the filters seen so far. A filter given twice counts as given last.
pub open spec fn list_options(
    args: Seq<Seq<char>>,
    i: int,
    priority: Option<Priority>,
    tag: Option<Seq<char>>,
    due_before: Option<CivilDateTime>,
) -> Result<CommandView, Seq<char>>
    decreases args.len() - i,
{
    if i < 0 || i >= args.len() {
        Ok(CommandView::List { priority, tag, due_before })
    } else if args[i] == "--priority"@ {
        if i + 1 >= args.len() {
            Err("Missing value for --priority"@)
        } else {
            match parsed_priority(lowercase_of(args[i + 1]), args[i + 1]) {
                Ok(p) => list_options(args, i + 2, Some(p), tag, due_before),
                Err(e) => Err(e),
            }
        }
    } else if args[i] == "--tag"@ {
        if i + 1 >= args.len() {
            Err("Missing value for --tag"@)
        } else {
            list_options(args, i + 2, priority, Some(args[i + 1]), due_before)
        }
    } else if args[i] == "--due-before"@ {
        if i + 1 >= args.len() {
            Err("Missing value for --due-before"@)
        } else {
            match due_value(args[i + 1], civil_of_text(args[i + 1])) {
                Ok(c) => list_options(args, i + 2, priority, tag, Some(c)),
                Err(e) => Err(e),
            }
        }
    } else {
        Err("Unknown argument: "@ + args[i])
    }
}

/// The id that follows `done`, `remove` or `toggle`, given what the number
/// reader made of the second argument.
pub open spec fn id_argument(args: Seq<Seq<char>>, read: Option<usize>) -> Result<
    usize,
    Seq<char>,
> {
    if args.len() < 2 {
        Err("Missing todo id"@)
    } else {
        match read {
            None => Err("Invalid id '"@ + args[1] + "'"@),
            Some(id) => if args.len() > 2 {
                Err("Unknown argument: "@ + args[2])
            } else {
                Ok(id)
            },
        }
    }
}

/// What the second argument denotes as a number, if there is one.
pub open spec fn id_read(args: Seq<Seq<char>>) -> Option<usize> {
    if args.len() < 2 {
        None
    } else {
        number_of_text(args[1])
    }
}

/// What a list of arguments asks for, or the complaint about it. The list
/// starts at the subcommand: the program's own name is not part of it.
pub open spec fn parsed_args(args: Seq<Seq<char>>) -> Result<CommandView, Seq<char>> {
    if args.len() == 0 {
        Err("No command provided"@)
    } else if args[0] == "add"@ {
        if args.len() < 2 {
            Err("Missing todo text"@)
        } else {
            add_options(args, 2, None, Seq::empty(), None)
        }
    } else if args[0] == "list"@ {
        list_options(args, 1, None, None, None)
    } else if args[0] == "done"@ {
        match id_argument(args, id_read(args)) {
            Ok(id) => Ok(CommandView::Done { id }),
            Err(e) => Err(e),
        }
    } else if args[0] == "remove"@ {
        match id_argument(args, id_read(args)) {
            Ok(id) => Ok(CommandView::Remove { id }),
            Err(e) => Err(e),
        }
    } else if args[0] == "toggle"@ {
        match id_argument(args, id_read(args)) {
            Ok(id) => Ok(CommandView::Toggle { id }),
            Err(e) => Err(e),
        }
    } else {
        Err("Unknown command "@ + args[0])
    }
}

/// A parse result and its model agree: the same command, or the same message.
pub open spec fn command_result_is(r: Result<Command, String>, m: Result<CommandView, Seq<char>>) -> bool {
    match r {
        Ok(c) => m == Ok::<CommandView, Seq<char>>(c@),
        Err(e) => m == Err::<CommandView, Seq<char>>(e@),
    }
}

/// Accepts what the date reader made of a `--due` or `--due-before` value,
/// or complains about the value as given.
pub fn check_due(given: &str, read: Option<CivilDateTime>) -> (r: Result<CivilDateTime, String>)
    ensures
        match r {
            Ok(c) => due_value(given@, read) == Ok::<CivilDateTime, Seq<char>>(c),
            Err(e) => due_value(given@, read) == Err::<CivilDateTime, Seq<char>>(e@),
        },
{
    match read {
        Some(c) => Ok(c),
        None => {
            let mut msg = String::from_str("Invalid date and time '");
            msg.append(given);
            msg.append("'");
            Err(msg)
        },
    }
}

/// Decides the id of `done`, `remove` or `toggle` from the arguments and
/// what the number reader made of the second one.
pub fn check_id(args: &Vec<String>, read: Option<usize>) -> (r: Result<usize, String>)
    ensures
        match r {
            Ok(id) => id_argument(texts(args@), read) == Ok::<usize, Seq<char>>(id),
            Err(e) => id_argument(texts(args@), read) == Err::<usize, Seq<char>>(e@),
        },
{
    if args.len() < 2 {
        Err(String::from_str("Missing todo id"))
    } else {
        match read {
            None => {
                let mut msg = String::from_str("Invalid id '");
                msg.append(args[1].as_str());
                msg.append("'");
                Err(msg)
            },
            Some(id) => {
                if args.len() > 2 {
                    let mut msg = String::from_str("Unknown argument: ");
                    msg.append(args[2].as_str());
                    Err(msg)
                } else {
                    Ok(id)
                }
            },
        }
    }
}

fn read_id(args: &Vec<String>) -> (r: Result<usize, String>)
    ensures
        match r {
            Ok(id) => id_argument(texts(args@), id_read(texts(args@))) == Ok::<usize, Seq<char>>(id),
            Err(e) => id_argument(texts(args@), id_read(texts(args@))) == Err::<usize, Seq<char>>(
                e@,
            ),
        },
{
    let read = if args.len() < 2 {
        None
    } else {
        parse_number(args[1].as_str())
    };
    check_id(args, read)
}

fn parse_add(args: &Vec<String>) -> (r: Result<Command, String>)
    requires
        args@.len() >= 2,
    ensures
        command_result_is(r, add_options(texts(args@), 2, None, Seq::empty(), None)),
{
    let ghost a = texts(args@);
    let ghost goal = add_options(a, 2, None, Seq::empty(), None);
    let mut priority: Option<Priority> = None;
    let mut tags: Vec<String> = Vec::new();
    let mut due: Option<CivilDateTime> = None;
    assert(texts(tags@) =~= Seq::<Seq<char>>::empty());
    let mut i: usize = 2;
    while i < args.len()
        invariant
            2 <= i <= args.len(),
            a == texts(args@),
            goal == add_options(a, 2, None, Seq::empty(), None),
            add_options(a, i as int, priority, texts(tags@), due) == goal,
        decreases args.len() - i,
    {
        if is_text(&args[i], "--priority") {
            if i + 1 >= args.len() {
                return Err(String::from_str("Missing value for --priority"));
            }
            match Priority::from_str(args[i + 1].as_str()) {
                Ok(p) => {
                    priority = Some(p);
                },
                Err(e) => {
                    return Err(e);
                },
            }
        } else if is_text(&args[i], "--tag") {
            if i + 1 >= args.len() {
                return Err(String::from_str("Missing value for --tag"));
            }
            let ghost seen = texts(tags@);
            tags.push(args[i + 1].clone());
            assert(texts(tags@) =~= seen.push(a[i + 1]));
        } else if is_text(&args[i], "--due") {
            if i + 1 >= args.len() {
                return Err(String::from_str("Missing value for --due"));
            }
            let read = parse_civil(args[i + 1].as_str());
            match check_due(args[i + 1].as_str(), read) {
                Ok(c) => {
                    due = Some(c);
                },
                Err(e) => {
                    return Err(e);
                },
            }
        } else {
            let mut msg = String::from_str("Unknown argument: ");
            msg.append(args[i].as_str());
            return Err(msg);
        }
        i = i + 2;
    }
    Ok(Command::Add { text: args[1].clone(), priority, tags, due })
}

fn parse_list(args: &Vec<String>) -> (r: Result<Command, String>)
    requires
        args@.len() >= 1,
    ensures
        command_result_is(r, list_options(texts(args@), 1, None, None, None)),
{
    let ghost a = texts(args@);
    let ghost goal = list_options(a, 1, None, None, None);
    let mut priority: Option<Priority> = None;
    let mut tag: Option<String> = None;
    let mut due_before: Option<CivilDateTime> = None;
    let mut i: usize = 1;
    while i < args.len()
        invariant
            1 <= i <= args.len(),
            a == texts(args@),
            goal == list_options(a, 1, None, None, None),
            list_options(a, i as int, priority, optional_text(tag), due_before) == goal,
        decreases args.len() - i,
    {
        if is_text(&args[i], "--priority") {
            if i + 1 >= args.len() {
                return Err(String::from_str("Missing value for --priority"));
            }
            match Priority::from_str(args[i + 1].as_str()) {
                Ok(p) => {
                    priority = Some(p);
                },
                Err(e) => {
                    return Err(e);
                },
            }
        } else if is_text(&args[i], "--tag") {
            if i + 1 >= args.len() {
                return Err(String::from_str("Missing value for --tag"));
            }
            tag = Some(args[i + 1].clone());
        } else if is_text(&args[i], "--due-before") {
            if i + 1 >= args.len() {
                return Err(String::from_str("Missing value for --due-before"));
            }
            let read = parse_civil(args[i + 1].as_str());
            match check_due(args[i + 1].as_str(), read) {
                Ok(c) => {
                    due_before = Some(c);
                },
                Err(e) => {
                    return Err(e);
                },
            }
        } else {
            let mut msg = String::from_str("Unknown argument: ");
            msg.append(args[i].as_str());
            return Err(msg);
        }
        i = i + 2;
    }
    Ok(Command::List { priority, tag, due_before })
}

/// Reads a command from the arguments that follow the program's name.
pub fn parse_args(args: &Vec<String>) -> (r: Result<Command, String>)
    ensures
        command_result_is(r, parsed_args(texts(args@))),
{
    if args.len() == 0 {
        Err(String::from_str("No command provided"))
    } else if is_text(&args[0], "add") {
        if args.len() < 2 {
            Err(String::from_str("Missing todo text"))
        } else {
            parse_add(args)
        }
    } else if is_text(&args[0], "list") {
        parse_list(args)
    } else if is_text(&args[0], "done") {
        match read_id(args) {
            Ok(id) => Ok(Command::Done { id }),
            Err(e) => Err(e),
        }
    } else if is_text(&args[0], "remove") {
        match read_id(args) {
            Ok(id) => Ok(Command::Remove { id }),
            Err(e) => Err(e),
        }
    } else if is_text(&args[0], "toggle") {
        match read_id(args) {
            Ok(id) => Ok(Command::Toggle { id }),
            Err(e) => Err(e),
        }
    } else {
        let mut msg = String::from_str("Unknown command ");
        msg.append(args[0].as_str());
        Err(msg)
    }
}

} // verus!
