use vstd::prelude::*;
use vstd::string::StringExecFns;
use crate::render::{render, rendering};
use crate::schema::{schema, SchemaError, TableInfoV};

verus! {

/// The dispatcher's message for a command name it does not know.
pub open spec fn unknown_command_message(name: Seq<char>) -> Seq<char> {
    "unknown slash command: \""@ + name + "\""@
}

/// The message of a missing path argument.
pub open spec fn missing_path_message() -> Seq<char> {
    "need path to db"@
}

/// Whether a slash command name is one this extension provides.
pub fn known_command(name: &str) -> (r: bool)
    ensures
        r == (name@ == "schema"@),
{
    let n: String = name.to_owned();
    let s: String = "schema".to_owned();
    n == s
}

/// Build the dispatcher's message for an unknown command name.
fn unknown_command_error(name: &str) -> (r: String)
    ensures
        r@ == unknown_command_message(name@),
{
    let mut r = String::new();
    r.append("unknown slash command: \"");
    r.append(name);
    r.append("\"");
    proof {
        assert(r@ =~= unknown_command_message(name@));
    }
    r
}

/// Run the schema command proper: demand a path argument before any
/// file access, introspect the file the first argument names, and
/// render the result as text.
///
/// The error is `MissingArgument` exactly when no argument was given;
/// on success the text is the rendering of the introspected records.
pub fn schema_command(args: &Vec<String>) -> (r: Result<String, SchemaError>)
    ensures
        (args@.len() == 0) <==> (r matches Err(e) && e is MissingArgument),
        r matches Ok(text) ==> args@.len() > 0 && (exists|recs: Seq<TableInfoV>|
            text@ == #[trigger] rendering(recs)),
{
    if args.len() == 0 {
        return Err(SchemaError::MissingArgument);
    }
    let info = match schema(args[0].as_str()) {
        Ok(info) => info,
        Err(e) => return Err(e),
    };
    let text = render(&info);
    proof {
        assert(text@ == rendering(info.tables.deep_view()));
    }
    Ok(text)
}

/// Dispatch one slash command: only `schema` is known. An unknown
/// name is reported as such; the schema command's own failure is
/// reported as its message.
pub fn run_slash_command(name: &str, args: &Vec<String>) -> (r: Result<String, String>)
    ensures
        name@ != "schema"@ ==> (r matches Err(m) && m@ == unknown_command_message(name@)),
        name@ == "schema"@ && args@.len() == 0 ==> (r matches Err(m) && m@
            == missing_path_message()),
        r is Ok ==> name@ == "schema"@ && args@.len() > 0,
{
    if !known_command(name) {
        return Err(unknown_command_error(name));
    }
    match schema_command(args) {
        Ok(text) => Ok(text),
        Err(e) => Err(e.message()),
    }
}

/// Argument completion for one slash command: the `schema` command
/// offers no completions at all; an unknown name is reported as such.
pub fn complete_slash_command_argument(name: &str) -> (r: Result<Vec<String>, String>)
    ensures
        name@ == "schema"@ ==> (r matches Ok(cs) && cs@.len() == 0),
        name@ != "schema"@ ==> (r matches Err(m) && m@ == unknown_command_message(name@)),
{
    if known_command(name) {
        Ok(Vec::new())
    } else {
        Err(unknown_command_error(name))
    }
}

} // verus!
