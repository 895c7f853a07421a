//! Connection settings of the direct MCP client: transports, server
//! configurations and the parsing of command lines.

use vstd::prelude::*;

use crate::feature::join2;
use crate::text::{copy_strings, owned, str_contains, has_substring, views};

verus! {

/// How `shell_words::split` splits `s` into words (POSIX shell quoting);
/// `None` when the quoting is unbalanced.
pub uninterp spec fn shell_split(s: Seq<char>) -> Option<Seq<Seq<char>>>;

/// `shell_words::split`, its error mapped to `None`.
#[verifier::external_body]
fn split_words(s: &str) -> (r: Option<Vec<String>>)
    ensures
        match r {
            Some(v) => shell_split(s@) == Some(views(v@)),
            None => shell_split(s@) is None,
        },
{
    match shell_words::split(s) {
        Ok(v) => Some(v),
        Err(_) => None,
    }
}

/// Transport of a direct MCP connection. The environment is a list of
/// (name, value) pairs.
#[derive(Debug, Clone)]
pub enum TransportConfig {
    /// Local child process
    Stdio { command: String, args: Vec<String>, env: Vec<(String, String)> },
    /// Streamable HTTP
    Http { url: String },
}

/// A server to connect to.
#[derive(Debug, Clone)]
pub struct ServerConfig {
    /// Server ID
    pub id: String,
    /// Display name
    pub name: String,
    /// How to reach it
    pub transport: TransportConfig,
}

/// Status of a direct MCP connection.
#[derive(Debug, Clone, PartialEq)]
pub enum ConnectionStatus {
    /// Not connected
    Disconnected,
    /// Connecting
    Connecting,
    /// Connected and ready
    Connected,
    /// Failed with an error
    Error(String),
}

/// The message for a command line whose quoting does not parse.
pub open spec fn unparsable_message() -> Seq<char> {
    "Failed to parse command string - check for unmatched quotes"@
}

/// The message for a command line with no words.
pub open spec fn empty_command_message() -> Seq<char> {
    "Empty command after parsing"@
}

/// The executable and arguments of a command: separate arguments, when
/// given, are used as they are; a command with a space is split with shell
/// quoting into the executable and its arguments; else the command runs
/// without arguments.
pub open spec fn parsed_command(command: Seq<char>, args: Seq<Seq<char>>) -> Result<(Seq<char>, Seq<Seq<char>>), Seq<char>> {
    if args.len() > 0 {
        Ok((command, args))
    } else if has_substring(command, " "@) {
        match shell_split(command) {
            Some(parts) => if parts.len() == 0 {
                Err(empty_command_message())
            } else {
                Ok((parts[0], parts.skip(1)))
            },
            None => Err(unparsable_message()),
        }
    } else {
        Ok((command, seq![]))
    }
}

/// Splits a command that may carry its arguments ("docker run -i image",
/// "npx -y @some/server") into the executable and its arguments.
pub fn parse_command(command: &str, args: &[String]) -> (r: Result<(String, Vec<String>), String>)
    ensures
        match r {
            Ok((exe, a)) => parsed_command(command@, views(args@)) == Ok::<(Seq<char>, Seq<Seq<char>>), Seq<char>>(
                (exe@, views(a@)),
            ),
            Err(m) => parsed_command(command@, views(args@)) == Err::<(Seq<char>, Seq<Seq<char>>), Seq<char>>(m@),
        },
{
    if args.len() > 0 {
        return Ok((owned(command), copy_strings(args)));
    }
    if str_contains(command, " ") {
        match split_words(command) {
            Some(parts) => {
                if parts.len() == 0 {
                    return Err(owned("Empty command after parsing"));
                }
                let exe = parts[0].clone();
                let mut rest: Vec<String> = Vec::new();
                let mut i: usize = 1;
                while i < parts.len()
                    invariant
                        1 <= i <= parts@.len(),
                        views(rest@) == views(parts@).subrange(1, i as int),
                    decreases parts@.len() - i,
                {
                    let ghost before = views(rest@);
                    rest.push(parts[i].clone());
                    assert(views(rest@) == before.push(parts@[i as int]@));
                    assert(views(parts@).subrange(1, i + 1) == views(parts@).subrange(1, i as int).push(parts@[i as int]@));
                    i = i + 1;
                }
                assert(views(parts@).skip(1) == views(parts@).subrange(1, parts@.len() as int));
                assert(views(parts@)[0] == exe@);
                assert(views(parts@).len() > 0);
                Ok((exe, rest))
            },
            None => Err(owned("Failed to parse command string - check for unmatched quotes")),
        }
    } else {
        let none: Vec<String> = Vec::new();
        assert(views(none@) =~= Seq::<Seq<char>>::empty());
        Ok((owned(command), none))
    }
}

/// The client name the gateway announces to a server: "mcpmux-" and the
/// server ID.
pub fn handler_client_name(server_id: &str) -> (r: String)
    ensures
        r@ == "mcpmux-"@ + server_id@,
{
    join2("mcpmux-", server_id)
}

} // verus!
