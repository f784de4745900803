//! The command line that reaches the switch from the jump host.

use vstd::prelude::*;

verus! {

/// How the command that dumps the configuration reaches the switch.
#[derive(Debug, Clone, Copy, PartialEq, Eq, Structural)]
pub enum Delivery {
    /// It is handed to the nested client as its last argument.
    Argument,
    /// It is typed into the switch's shell once that has started.
    Typed,
}

/// The command that makes the switch print its configuration.
pub open spec fn dump_command() -> Seq<char> {
    "show configuration | display set | no-more"@
}

/// The nested client and its options: no host key is checked or kept.
pub open spec fn client_prefix() -> Seq<char> {
    "ssh -o StrictHostKeyChecking=no -o UserKnownHostsFile=/dev/null "@
}

/// The command line that the jump host runs to reach `user` at `host`.
pub open spec fn nested_command(user: Seq<char>, host: Seq<char>, delivery: Delivery) -> Seq<
    char,
> {
    let target = client_prefix() + user + "@"@ + host;
    match delivery {
        Delivery::Argument => target + " '"@ + dump_command() + "'"@,
        Delivery::Typed => target,
    }
}

/// `text` as a line that is typed: with a line feed after it.
pub open spec fn typed_line(text: Seq<char>) -> Seq<char> {
    text + "\n"@
}

/// The command line that the jump host runs to reach `user` at `host`.
pub fn nested_ssh_command(user: &str, host: &str, delivery: Delivery) -> (command: String)
    ensures
        command@ == nested_command(user@, host@, delivery),
{
    let mut command = String::from_str(
        "ssh -o StrictHostKeyChecking=no -o UserKnownHostsFile=/dev/null ",
    );
    command.append(user);
    command.append("@");
    command.append(host);
    match delivery {
        Delivery::Argument => {
            command.append(" '");
            command.append("show configuration | display set | no-more");
            command.append("'");
        },
        Delivery::Typed => {},
    }
    command
}

/// `text` as a line that is typed: with a line feed after it.
pub fn line_of(text: &str) -> (line: String)
    ensures
        line@ == typed_line(text@),
{
    let mut line = String::from_str(text);
    line.append("\n");
    line
}

/// The line that is typed to make the switch print its configuration.
pub fn dump_command_line() -> (line: String)
    ensures
        line@ == typed_line(dump_command()),
{
    line_of("show configuration | display set | no-more")
}

} // verus!
