//! The entry point's role dispatch: decide from the first process argument
//! whether to run the client, run the server, or print a usage message.

use vstd::prelude::*;
use vstd::string::StringExecFns;

verus! {

/// The action the entry point takes for a given role argument.
#[derive(Debug, PartialEq, Eq)]
pub enum RoleCommand {
    /// Run the client role.
    RunClient,
    /// Run the server role.
    RunServer,
    /// Print this message and exit gracefully, with no network activity.
    Usage(String),
}

/// The message printed when no role argument was given.
pub open spec fn missing_role_message() -> Seq<char> {
    "ERROR: Please specify either 'client' or 'server'"@
}

/// The message printed for an unrecognized role argument; it names the
/// argument that was received.
pub open spec fn unknown_role_message(arg: Seq<char>) -> Seq<char> {
    "ERROR: Please specify either 'client' or 'server' (received '"@ + arg + "')"@
}

/// Decide what to do from the first process argument: `"client"` and
/// `"server"` select their roles; anything else, or a missing argument, is a
/// graceful failure carrying the usage message.
pub fn dispatch_role(arg: Option<String>) -> (c: RoleCommand)
    ensures
        arg is None ==> (c matches RoleCommand::Usage(m) && m@ == missing_role_message()),
        arg matches Some(a) ==> {
            &&& a@ == "client"@ ==> c == RoleCommand::RunClient
            &&& a@ == "server"@ ==> c == RoleCommand::RunServer
            &&& (a@ != "client"@ && a@ != "server"@) ==> (c matches RoleCommand::Usage(m)
                && m@ == unknown_role_message(a@))
        },
{
    match arg {
        None => RoleCommand::Usage(
            String::from_str("ERROR: Please specify either 'client' or 'server'"),
        ),
        Some(a) => {
            proof {
                reveal_strlit("client");
                reveal_strlit("server");
                assert("client"@[0] == 'c' && "server"@[0] == 's');
                assert("client"@ != "server"@);
            }
            let client_name = String::from_str("client");
            let server_name = String::from_str("server");
            if a == client_name {
                RoleCommand::RunClient
            } else if a == server_name {
                RoleCommand::RunServer
            } else {
                let mut m = String::from_str(
                    "ERROR: Please specify either 'client' or 'server' (received '",
                );
                m.append(a.as_str());
                m.append("')");
                RoleCommand::Usage(m)
            }
        },
    }
}

} // verus!
