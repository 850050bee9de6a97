//! Remote control of the playout: the JSON-RPC messages sent to the player
//! and the systemd commands that manage its service.

use vstd::prelude::*;
use std::collections::HashMap;
use crate::text::{from_utf8_lossy, is_trimmed_of, owned, push_word, trim, utf8_lossy, words_view};

verus! {

// ---------------------------------------------------------------------------
// JSON-RPC messages
// ---------------------------------------------------------------------------

/// A JSON-RPC 2.0 request.
#[derive(Debug, Clone)]
pub struct RpcObj<T> {
    pub jsonrpc: String,
    pub id: i32,
    pub method: String,
    pub params: T,
}

/// Parameters of a text-overlay message.
#[derive(Debug, Clone)]
pub struct TextParams {
    pub control: String,
    pub message: HashMap<String, String>,
}

/// Parameters of a player-control request.
#[derive(Debug, Clone)]
pub struct ControlParams {
    pub control: String,
}

/// Parameters of a media-information request.
#[derive(Debug, Clone)]
pub struct MediaParams {
    pub media: String,
}

/// A process command sent by a client.
#[derive(Debug, Clone)]
pub struct Process {
    pub command: String,
}

impl<T> RpcObj<T> {
    /// A JSON-RPC 2.0 request with the given id, method and parameters.
    pub fn new(id: i32, method: String, params: T) -> (r: Self)
        ensures
            r.jsonrpc@ == "2.0"@,
            r.id == id,
            r.method == method,
            r.params == params,
    {
        RpcObj { jsonrpc: owned("2.0"), id, method, params }
    }
}

/// The request that shows a text message on the player's overlay.
pub fn text_message(id: i32, message: HashMap<String, String>) -> (r: RpcObj<TextParams>)
    ensures
        r.jsonrpc@ == "2.0"@,
        r.id == id,
        r.method@ == "player"@,
        r.params.control@ == "text"@,
        r.params.message == message,
{
    RpcObj::new(id, owned("player"), TextParams { control: owned("text"), message })
}

/// The request that passes a control command to the player.
pub fn control_message(id: i32, command: String) -> (r: RpcObj<ControlParams>)
    ensures
        r.jsonrpc@ == "2.0"@,
        r.id == id,
        r.method@ == "player"@,
        r.params.control == command,
{
    RpcObj::new(id, owned("player"), ControlParams { control: command })
}

/// The request that asks the player about its media.
pub fn media_message(id: i32, command: String) -> (r: RpcObj<MediaParams>)
    ensures
        r.jsonrpc@ == "2.0"@,
        r.id == id,
        r.method@ == "player"@,
        r.params.media == command,
{
    RpcObj::new(id, owned("player"), MediaParams { media: command })
}

/// The URL of the player's remote-control server at `address`.
pub fn rpc_url(address: &str) -> (r: String)
    ensures
        r@ == "http://"@ + address@,
{
    owned("http://").concat(address)
}

// ---------------------------------------------------------------------------
// The playout service
// ---------------------------------------------------------------------------

/// Errors that the control of the service answers with.
#[derive(Debug, Clone)]
pub enum ServiceError {
    BadRequest(String),
    ServiceUnavailable(String),
}

/// The service commands a client may ask for.
#[derive(Debug, Clone, Copy, PartialEq, Eq, Structural)]
pub enum ServiceCommand {
    Enable,
    Disable,
    Start,
    Stop,
    Restart,
    Status,
}

/// The command a client word names, if any.
pub open spec fn service_command_named(s: Seq<char>) -> Option<ServiceCommand> {
    if s == "enable"@ {
        Some(ServiceCommand::Enable)
    } else if s == "disable"@ {
        Some(ServiceCommand::Disable)
    } else if s == "start"@ {
        Some(ServiceCommand::Start)
    } else if s == "stop"@ {
        Some(ServiceCommand::Stop)
    } else if s == "restart"@ {
        Some(ServiceCommand::Restart)
    } else if s == "status"@ {
        Some(ServiceCommand::Status)
    } else {
        None
    }
}

/// The `systemctl` verb that carries out a command.
pub open spec fn systemctl_verb(c: ServiceCommand) -> Seq<char> {
    match c {
        ServiceCommand::Enable => "enable"@,
        ServiceCommand::Disable => "disable"@,
        ServiceCommand::Start => "start"@,
        ServiceCommand::Stop => "stop"@,
        ServiceCommand::Restart => "restart"@,
        ServiceCommand::Status => "is-active"@,
    }
}

/// The `systemctl` verb of a command is the very word the client sent,
/// except for `status`, which asks `systemctl is-active`.
pub proof fn systemctl_verb_is_client_word(word: Seq<char>)
    ensures
        match service_command_named(word) {
            Some(c) => if c == ServiceCommand::Status {
                word == "status"@ && systemctl_verb(c) == "is-active"@
            } else {
                systemctl_verb(c) == word
            },
            None => true,
        },
{
}

impl ServiceCommand {
    /// Reads a service command from the word a client sent.
    pub fn parse(command: &str) -> (r: Result<ServiceCommand, ServiceError>)
        ensures
            match service_command_named(command@) {
                Some(c) => r matches Ok(d) && d == c,
                None => r matches Err(ServiceError::BadRequest(m)) && m@ == "Command not found!"@,
            },
    {
        if crate::text::str_eq(command, "enable") {
            Ok(ServiceCommand::Enable)
        } else if crate::text::str_eq(command, "disable") {
            Ok(ServiceCommand::Disable)
        } else if crate::text::str_eq(command, "start") {
            Ok(ServiceCommand::Start)
        } else if crate::text::str_eq(command, "stop") {
            Ok(ServiceCommand::Stop)
        } else if crate::text::str_eq(command, "restart") {
            Ok(ServiceCommand::Restart)
        } else if crate::text::str_eq(command, "status") {
            Ok(ServiceCommand::Status)
        } else {
            Err(ServiceError::BadRequest(owned("Command not found!")))
        }
    }
}

/// The systemd unit of a channel and the command line that manages it.
#[derive(Debug, Clone)]
pub struct SystemD {
    pub service: String,
    pub cmd: Vec<String>,
}

/// The path of the `systemctl` program.
pub open spec fn systemctl_path() -> Seq<char> {
    "/usr/bin/systemctl"@
}

impl SystemD {
    /// The manager of the given unit, starting from a bare `systemctl`.
    pub fn new(service: String) -> (r: SystemD)
        ensures
            r.service == service,
            words_view(r.cmd@) == seq![systemctl_path()],
    {
        let mut cmd: Vec<String> = Vec::new();
        push_word(&mut cmd, "/usr/bin/systemctl");
        assert(words_view(cmd@) =~= seq![systemctl_path()]);
        SystemD { service, cmd }
    }

    /// The command line with `verb` and the unit appended.
    fn with_verb(self, verb: &str) -> (r: Vec<String>)
        ensures
            words_view(r@) == words_view(self.cmd@) + seq![verb@, self.service@],
    {
        let SystemD { service, cmd } = self;
        let mut cmd = cmd;
        push_word(&mut cmd, verb);
        push_word(&mut cmd, service.as_str());
        assert(words_view(cmd@) =~= words_view(self.cmd@) + seq![verb@, self.service@]);
        cmd
    }

    /// The arguments that enable the unit.
    pub fn enable(self) -> (r: Vec<String>)
        ensures
            words_view(r@) == words_view(self.cmd@) + seq!["enable"@, self.service@],
    {
        self.with_verb("enable")
    }

    /// The arguments that disable the unit.
    pub fn disable(self) -> (r: Vec<String>)
        ensures
            words_view(r@) == words_view(self.cmd@) + seq!["disable"@, self.service@],
    {
        self.with_verb("disable")
    }

    /// The arguments that start the unit.
    pub fn start(self) -> (r: Vec<String>)
        ensures
            words_view(r@) == words_view(self.cmd@) + seq!["start"@, self.service@],
    {
        self.with_verb("start")
    }

    /// The arguments that stop the unit.
    pub fn stop(self) -> (r: Vec<String>)
        ensures
            words_view(r@) == words_view(self.cmd@) + seq!["stop"@, self.service@],
    {
        self.with_verb("stop")
    }

    /// The arguments that restart the unit.
    pub fn restart(self) -> (r: Vec<String>)
        ensures
            words_view(r@) == words_view(self.cmd@) + seq!["restart"@, self.service@],
    {
        self.with_verb("restart")
    }

    /// The arguments that ask whether the unit is active.
    pub fn status(self) -> (r: Vec<String>)
        ensures
            words_view(r@) == words_view(self.cmd@) + seq!["is-active"@, self.service@],
    {
        self.with_verb("is-active")
    }
}

/// A program run on behalf of a service command: its name, its arguments,
/// and whether its output is the answer to the client.
#[derive(Debug, Clone)]
pub struct ServiceCall {
    pub program: String,
    pub args: Vec<String>,
    pub reads_output: bool,
}

/// Decides how a service command word is carried out for a unit: through
/// `sudo`, with the unit's `systemctl` command line and the command's verb;
/// the output is read only for `status`. An unknown word is a bad request.
pub fn control_service(system_d: SystemD, command: &str) -> (r: Result<ServiceCall, ServiceError>)
    ensures
        match service_command_named(command@) {
            Some(c) => r matches Ok(call) && {
                &&& call.program@ == "sudo"@
                &&& words_view(call.args@) == words_view(system_d.cmd@) + seq![
                    systemctl_verb(c),
                    system_d.service@,
                ]
                &&& call.reads_output == (c == ServiceCommand::Status)
            },
            None => r matches Err(ServiceError::BadRequest(m)) && m@ == "Command not found!"@,
        },
        match service_command_named(command@) {
            Some(c) => r matches Ok(call) && if c == ServiceCommand::Status {
                words_view(call.args@) == words_view(system_d.cmd@) + seq![
                    "is-active"@,
                    system_d.service@,
                ]
            } else {
                words_view(call.args@) == words_view(system_d.cmd@) + seq![
                    command@,
                    system_d.service@,
                ]
            },
            None => true,
        },
{
    proof {
        systemctl_verb_is_client_word(command@);
    }
    let c = ServiceCommand::parse(command)?;
    let args = match c {
        ServiceCommand::Enable => system_d.enable(),
        ServiceCommand::Disable => system_d.disable(),
        ServiceCommand::Start => system_d.start(),
        ServiceCommand::Stop => system_d.stop(),
        ServiceCommand::Restart => system_d.restart(),
        ServiceCommand::Status => system_d.status(),
    };
    Ok(ServiceCall { program: owned("sudo"), args, reads_output: c == ServiceCommand::Status })
}

/// What the client is answered once the program has run: for a status
/// query the program's output, decoded and without surrounding white
/// space; for every other command `Success`.
pub fn service_reply(call: &ServiceCall, stdout: &[u8]) -> (r: String)
    ensures
        call.reads_output ==> is_trimmed_of(r@, utf8_lossy(stdout@)),
        !call.reads_output ==> r@ == "Success"@,
{
    if call.reads_output {
        let text = from_utf8_lossy(stdout);
        trim(text.as_str())
    } else {
        owned("Success")
    }
}

} // verus!
