//! The one-line protocol between a launcher and a warm ZenShot instance
//! listening on a local socket.
use vstd::prelude::*;
use vstd::utf8::{decode_utf8, encode_utf8, valid_utf8};
use crate::text::{str_eq, trim, trimmed};

verus! {

/// Name of the local socket a warm instance listens on.
pub const SOCKET_NAME: &'static str = "zenshot.sock";

/// What a listener answers once it has acted on a command.
pub const ACK: &'static str = "ok\n";

#[derive(Debug, Clone, Copy, PartialEq, Eq, Structural)]
pub enum IpcCommand {
    Capture,
    Quit,
}

/// The line a command is sent as.
pub open spec fn command_line(cmd: IpcCommand) -> Seq<char> {
    match cmd {
        IpcCommand::Capture => "capture\n"@,
        IpcCommand::Quit => "quit\n"@,
    }
}

/// The text a listener acts on: the received bytes decoded as UTF-8 (empty
/// when they are not valid UTF-8), without surrounding white space.
pub open spec fn received_text(bytes: Seq<u8>) -> Seq<char> {
    if valid_utf8(bytes) {
        trimmed(decode_utf8(bytes))
    } else {
        Seq::empty()
    }
}

pub open spec fn command_of(bytes: Seq<u8>) -> Option<IpcCommand> {
    if received_text(bytes) == "capture"@ {
        Some(IpcCommand::Capture)
    } else if received_text(bytes) == "quit"@ {
        Some(IpcCommand::Quit)
    } else {
        None
    }
}

/// Decodes UTF-8.
///
/// Trusted: calls std's `str::from_utf8`, which its documentation says
/// succeeds exactly when the bytes are valid UTF-8 and then yields the string
/// they encode; the contract states that with vstd's UTF-8 definitions.
#[verifier::external_body]
fn utf8_str(bytes: &[u8]) -> (s: Option<&str>)
    ensures
        s is Some <==> valid_utf8(bytes@),
        s matches Some(t) ==> t@ == decode_utf8(bytes@),
{
    std::str::from_utf8(bytes).ok()
}

/// The line a command is sent as.
pub fn command_message(cmd: IpcCommand) -> (line: &'static str)
    ensures
        line@ == command_line(cmd),
{
    match cmd {
        IpcCommand::Capture => "capture\n",
        IpcCommand::Quit => "quit\n",
    }
}

/// The command a listener recognises in what it received, if any.
pub fn parse_command(received: &[u8]) -> (cmd: Option<IpcCommand>)
    ensures
        cmd == command_of(received@),
{
    let text = match utf8_str(received) {
        Some(t) => trim(t),
        None => "",
    };
    proof {
        if !valid_utf8(received@) {
            assert(text@ =~= Seq::<char>::empty()) by {
                reveal_strlit("");
            }
        }
    }
    if str_eq(text, "capture") {
        Some(IpcCommand::Capture)
    } else if str_eq(text, "quit") {
        Some(IpcCommand::Quit)
    } else {
        None
    }
}

/// Every command a launcher sends is recognised by the listener as that
/// same command.
pub proof fn lemma_command_roundtrip(cmd: IpcCommand)
    ensures
        command_of(encode_utf8(command_line(cmd))) == Some(cmd),
{
    vstd::utf8::encode_utf8_valid_utf8(command_line(cmd));
    vstd::utf8::encode_utf8_decode_utf8(command_line(cmd));
    reveal_strlit("capture\n");
    reveal_strlit("quit\n");
    reveal_strlit("capture");
    reveal_strlit("quit");
    let line = command_line(cmd);
    assert(!crate::text::is_white_space(line[0]));
    assert(crate::text::trim_start(line) == line);
    assert(crate::text::is_white_space(line.last()));
    let body = line.drop_last();
    assert(!crate::text::is_white_space(body.last()));
    assert(crate::text::trim_end(body) == body);
    match cmd {
        IpcCommand::Capture => {
            assert(body =~= "capture"@);
        },
        IpcCommand::Quit => {
            assert(body =~= "quit"@);
            assert(body.len() != "capture"@.len());
        },
    }
}

} // verus!
