//! Bash tool: reads and validates the arguments of a command run, builds the
//! request handed to the command executor, and answers with its outcome.
use vstd::prelude::*;
use std::time::Duration;
use crate::model::{CommandRequest, CommandResult};
use crate::text::{opt_chars, chars_of, has_char, contains_char, extend_str, join, string_of, views, words, words_of};
use crate::tools::domain::json_builder::{command_data, error_doc, success_doc, JsonBuilder};
use crate::tools::domain::json_value::{jarray, jget, jstr, ju64, lemma_array_view, string_items, strings_in, JsonValue, JsonView};
use crate::tools::domain::validation::{
    args_error, command_error, failure_message, path_error, timeout_error, validate_command, validate_command_args,
    validate_path, validate_timeout, string_views,
};

verus! {

/// Bash tool: runs shell commands through a command executor.
pub struct BashTool;

/// Arguments of a command run.
#[derive(Debug)]
pub struct BashArgs {
    pub command: String,
    pub args: Vec<String>,
    pub working_dir: Option<String>,
    /// Timeout in seconds.
    pub timeout: Option<u64>,
}

/// The parsed arguments: command, arguments, working directory, timeout.
pub type BashArgsView = (Seq<char>, Seq<Seq<char>>, Option<Seq<char>>, Option<u64>);

/// What the bash tool makes of its arguments.  A command holding a space
/// is split at whitespace into program and arguments, unless a non-empty
/// `args` array is given, which then supplies the arguments; the command,
/// the arguments, the working directory and the timeout are validated in
/// that order, the first failure giving the error.
pub open spec fn bash_parse(v: JsonView) -> Result<BashArgsView, Seq<char>> {
    match jstr(jget(v, "command"@)) {
        None => Err("Missing 'command' argument"@),
        Some(cs) => {
            let explicit = match jarray(jget(v, "args"@)) {
                Some(a) => string_items(a),
                None => Seq::empty(),
            };
            let has_explicit = jarray(jget(v, "args"@)) matches Some(a) && a.len() > 0;
            if has_char(cs, ' ') && words(cs).len() == 0 {
                Err("Command cannot be empty"@)
            } else {
                let cmd = if has_char(cs, ' ') { words(cs)[0] } else { cs };
                let args = if has_char(cs, ' ') && !has_explicit { words(cs).skip(1) } else { explicit };
                let wd = jstr(jget(v, "working_dir"@));
                let t = ju64(jget(v, "timeout"@));
                if command_error(cmd) is Some {
                    Err(command_error(cmd)->0)
                } else if args_error(args) is Some {
                    Err(args_error(args)->0)
                } else if wd is Some && path_error(wd->0) is Some {
                    Err(path_error(wd->0)->0)
                } else if t is Some && timeout_error(t->0) is Some {
                    Err(timeout_error(t->0)->0)
                } else {
                    Ok((cmd, args, wd, t))
                }
            }
        },
    }
}

/// The view of parsed bash arguments.
pub open spec fn bash_args_view(a: BashArgs) -> BashArgsView {
    (a.command@, a.args@.map_values(|s: String| s@), match a.working_dir {
        Some(d) => Some(d@),
        None => None,
    }, a.timeout)
}

/// The command line shown for a run: the command, followed by its
/// arguments separated by spaces when there are any.
pub open spec fn command_line(command: Seq<char>, args: Seq<Seq<char>>) -> Seq<char> {
    if args.len() == 0 { command } else { command + " "@ + join(args, " "@) }
}

/// Strings from character vectors.
fn strings_of(v: &Vec<Vec<char>>, from: usize) -> (r: Vec<String>)
    requires
        from <= v@.len(),
    ensures
        r@.map_values(|s: String| s@) == views(v@).skip(from as int),
{
    let mut out: Vec<String> = Vec::new();
    let mut i = from;
    while i < v.len()
        invariant
            from <= i <= v@.len(),
            out@.map_values(|s: String| s@) == views(v@).subrange(from as int, i as int),
        decreases v.len() - i,
    {
        let ghost before = out@;
        out.push(string_of(v[i].as_slice()));
        assert(out@.map_values(|s: String| s@) =~= before.map_values(|s: String| s@).push(v@[i as int]@));
        assert(views(v@).subrange(from as int, i + 1) =~= views(v@).subrange(from as int, i as int).push(v@[i as int]@));
        i = i + 1;
    }
    assert(views(v@).subrange(from as int, v@.len() as int) =~= views(v@).skip(from as int));
    out
}

/// Name for the duration `Duration::from_secs` makes of a number of
/// seconds.
pub uninterp spec fn duration_of_secs(secs: u64) -> Duration;

/// `Duration::from_secs`.
#[verifier::external_body]
fn duration_from_secs(secs: u64) -> (r: Duration)
    ensures
        r == duration_of_secs(secs),
{
    Duration::from_secs(secs)
}

impl BashArgs {
    /// The timeout as a duration: that many seconds, or none.
    pub fn timeout_duration(&self) -> (r: Option<Duration>)
        ensures
            r == (match self.timeout {
                Some(s) => Some(duration_of_secs(s)),
                None => None::<Duration>,
            }),
    {
        match self.timeout {
            Some(s) => Some(duration_from_secs(s)),
            None => None,
        }
    }
}

impl BashTool {
    /// A bash tool.
    pub fn new() -> (r: Self) {
        BashTool
    }

    /// Reads and validates the arguments of a command run.
    pub fn parse_args(args: &JsonValue) -> (r: Result<BashArgs, String>)
        ensures
            match (r, bash_parse(args@)) {
                (Ok(a), Ok(v)) => bash_args_view(a) == v,
                (Err(m), Err(e)) => m@ == e,
                _ => false,
            },
    {
        let command_str = match args.get_str("command") {
            Some(c) => c,
            None => return Err("Missing 'command' argument".to_owned()),
        };
        let cs = chars_of(command_str);
        let (explicit, has_explicit): (Vec<String>, bool) = match args.get_array("args") {
            Some(a) => {
                proof {
                    lemma_array_view(a@);
                }
                (strings_in(a), a.len() > 0)
            },
            None => (Vec::new(), false),
        };
        let has_space = contains_char(cs.as_slice(), ' ');
        let (command, arg_list): (String, Vec<String>) = if has_space {
            let parts = words_of(cs.as_slice());
            if parts.len() == 0 {
                return Err("Command cannot be empty".to_owned());
            }
            let cmd = string_of(parts[0].as_slice());
            if has_explicit {
                (cmd, explicit)
            } else {
                (cmd, strings_of(&parts, 1))
            }
        } else {
            (command_str.to_owned(), explicit)
        };
        proof {
            let cs_v = command_str@;
            let ex = match jarray(jget(args@, "args"@)) {
                Some(a) => string_items(a),
                None => Seq::empty(),
            };
            let hx = jarray(jget(args@, "args"@)) matches Some(a) && a.len() > 0;
            assert(has_space == has_char(cs_v, ' '));
            assert(has_explicit == hx);
            assert(explicit@.map_values(|s: String| s@) == ex) by {
                if jarray(jget(args@, "args"@)) is None {
                    assert(explicit@.map_values(|s: String| s@) =~= Seq::<Seq<char>>::empty());
                }
            }
            let sa = if has_char(cs_v, ' ') && !hx { words(cs_v).skip(1) } else { ex };
            assert(arg_list@.map_values(|s: String| s@) == sa);
            assert(string_views(arg_list@) == sa);
        }
        if let Some(m) = failure_message(validate_command(command.as_str())) {
            return Err(m);
        }
        if let Some(m) = failure_message(validate_command_args(arg_list.as_slice())) {
            proof {
                let sv = string_views(arg_list@);
                crate::tools::domain::validation::lemma_first_bad_arg(sv, 0);
                if let Some(i) = crate::tools::domain::validation::first_bad_arg(sv, 0) {
                    assert(sv[i] == arg_list@[i]@);
                }
            }
            return Err(m);
        }
        assert(string_views(arg_list@) == arg_list@.map_values(|s: String| s@));
        let working_dir: Option<String> = match args.get_str("working_dir") {
            Some(d) => Some(d.to_owned()),
            None => None,
        };
        if let Some(d) = &working_dir {
            if let Some(m) = failure_message(validate_path(d.as_str())) {
                return Err(m);
            }
        }
        let timeout = args.get_u64("timeout");
        if let Some(t) = timeout {
            if let Some(m) = failure_message(validate_timeout(t)) {
                return Err(m);
            }
        }
        Ok(BashArgs { command, args: arg_list, working_dir, timeout })
    }

    /// The request handed to the command executor.
    pub fn build_command_request(&self, args: &BashArgs) -> (r: CommandRequest)
        ensures
            r.command@ == args.command@,
            r.args@.map_values(|s: String| s@) == args.args@.map_values(|s: String| s@),
            opt_chars(r.working_dir) == opt_chars(args.working_dir),
            r.timeout_secs == args.timeout,
    {
        let mut request = CommandRequest::new(args.command.as_str()).with_args(clone_strings(&args.args));
        if let Some(dir) = &args.working_dir {
            request = request.with_working_dir(dir.as_str());
        }
        if let Some(t) = args.timeout {
            request = request.with_timeout(t);
        }
        request
    }

    /// The answer when the command is not available.
    pub fn command_not_found(args: &BashArgs) -> (r: JsonValue)
        ensures
            r@ == error_doc(
                "bash"@,
                "COMMAND_NOT_FOUND"@,
                "Command not found: "@ + args.command@,
                "The command '"@ + args.command@ + "' is not available"@,
            ),
    {
        let mut m: Vec<char> = Vec::new();
        extend_str(&mut m, "Command not found: ");
        extend_str(&mut m, args.command.as_str());
        let mut d: Vec<char> = Vec::new();
        extend_str(&mut d, "The command '");
        extend_str(&mut d, args.command.as_str());
        extend_str(&mut d, "' is not available");
        JsonBuilder::build_error(
            "bash",
            "COMMAND_NOT_FOUND",
            string_of(m.as_slice()).as_str(),
            string_of(d.as_slice()).as_str(),
        )
    }

    /// The answer with the outcome of a run.
    pub fn command_response(args: &BashArgs, result: &CommandResult) -> (r: JsonValue)
        ensures
            r@ == success_doc("bash"@, command_data(command_line(args.command@, args.args@.map_values(|s: String| s@)), *result)),
    {
        let mut line: Vec<char> = chars_of(args.command.as_str());
        let ghost cmd = line@;
        if args.args.len() > 0 {
            extend_str(&mut line, " ");
            let ghost vs = args.args@.map_values(|s: String| s@);
            let mut i: usize = 0;
            while i < args.args.len()
                invariant
                    i <= args.args@.len(),
                    vs == args.args@.map_values(|s: String| s@),
                    line@ == cmd + " "@ + join(vs.take(i as int), " "@),
                decreases args.args.len() - i,
            {
                let ghost prev = vs.take(i as int);
                if i > 0 {
                    extend_str(&mut line, " ");
                }
                extend_str(&mut line, args.args[i].as_str());
                proof {
                    let cur = vs.take(i + 1);
                    assert(cur.drop_last() =~= prev);
                    assert(cur.last() == args.args@[i as int]@);
                    if i == 0 {
                        assert(prev =~= Seq::<Seq<char>>::empty());
                        assert(line@ =~= cmd + " "@ + cur[0]);
                    } else {
                        assert(line@ =~= cmd + " "@ + (join(prev, " "@) + " "@ + cur.last()));
                    }
                }
                i = i + 1;
            }
            assert(vs.take(args.args@.len() as int) =~= vs);
        }
        let shown = string_of(line.as_slice());
        JsonBuilder::build_command_result(shown.as_str(), result)
    }
}

/// Copies of a list of strings.
fn clone_strings(v: &Vec<String>) -> (r: Vec<String>)
    ensures
        r@.map_values(|s: String| s@) == v@.map_values(|s: String| s@),
{
    let mut out: Vec<String> = Vec::new();
    let mut i: usize = 0;
    while i < v.len()
        invariant
            i <= v@.len(),
            out@.map_values(|s: String| s@) == v@.take(i as int).map_values(|s: String| s@),
        decreases v.len() - i,
    {
        let ghost before = out@;
        out.push(v[i].clone());
        assert(out@.map_values(|s: String| s@) =~= before.map_values(|s: String| s@).push(v@[i as int]@));
        assert(v@.take(i + 1).map_values(|s: String| s@) =~= v@.take(i as int).map_values(|s: String| s@).push(v@[i as int]@));
        i = i + 1;
    }
    assert(v@.take(v@.len() as int) =~= v@);
    out
}

} // verus!
