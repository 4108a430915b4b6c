//! The session controller: the connection phase, the prompt of each phase,
//! and what each line of input leads to. The caller reads the input, carries
//! out the returned action and reports the outcome of a registration.
use vstd::prelude::*;
use vstd::string::StringExecFns;
use crate::commands::{CommandDescriptor, CommandRegistry, descriptor_name, has_name};
use crate::output::UiMessage;
use crate::text::{command_parts, parse_command, same_text, strip_trailing_newlines, without_trailing_newlines};

verus! {

/// The stage of the session.
#[derive(Clone, Copy, Debug, PartialEq, Eq, Structural)]
pub enum ConnectionPhase {
    Registration,
    Connected,
    Disconnected,
}

/// The prompt shown in each phase.
pub open spec fn prompt_text(p: ConnectionPhase) -> Seq<char> {
    match p {
        ConnectionPhase::Registration => "Please enter your desired nickname: "@,
        ConnectionPhase::Connected => "[connected] >>> "@,
        ConnectionPhase::Disconnected => "[disconnected] !!! "@,
    }
}

/// The prompt shown in phase `p`.
pub fn prompt_for(p: ConnectionPhase) -> (r: &'static str)
    ensures
        r@ == prompt_text(p),
{
    match p {
        ConnectionPhase::Registration => "Please enter your desired nickname: ",
        ConnectionPhase::Connected => "[connected] >>> ",
        ConnectionPhase::Disconnected => "[disconnected] !!! ",
    }
}

/// What the caller is to do after a line of input (or its absence).
#[derive(Clone, Debug, PartialEq, Eq)]
pub enum Action {
    /// Input has ended: stop running the controller.
    Stop,
    /// Register with this nickname, then report the outcome.
    Register(String),
    /// Send this text to the connection.
    Send(String),
    /// Run this command with this argument text.
    Dispatch(CommandDescriptor, String),
    /// Hand this message to the terminal writer.
    Output(UiMessage),
    /// End the whole process at once.
    Quit,
    /// Nothing to do.
    Idle,
}

/// The text printed for a command name that no descriptor carries.
pub open spec fn unknown_command_text(name: Seq<char>) -> Seq<char> {
    "unknown command: "@ + name
}

/// The text printed when registration fails.
pub open spec fn registration_error_text(err: Seq<char>) -> Seq<char> {
    "registration error: "@ + err
}

pub open spec fn line_view(line: Option<&str>) -> Option<Seq<char>> {
    match line {
        Some(l) => Some(l@),
        None => None,
    }
}

/// The action owed to a line read during registration.
pub open spec fn registration_action(line: Option<Seq<char>>, r: Action) -> bool {
    match line {
        None => r is Stop,
        Some(l) => match r {
            Action::Register(nick) => nick@ == without_trailing_newlines(l),
            _ => false,
        },
    }
}

/// The action owed to a line read while connected, with `commands` registered.
pub open spec fn connected_action(
    commands: Seq<CommandDescriptor>,
    line: Option<Seq<char>>,
    r: Action,
) -> bool {
    match line {
        None => r is Stop,
        Some(l) => {
            let s = without_trailing_newlines(l);
            match command_parts(s) {
                None => match r {
                    Action::Send(t) => t@ == s,
                    _ => false,
                },
                Some((name, rest)) => if has_name(commands, name) {
                    match r {
                        Action::Dispatch(d, arg) => descriptor_name(d) == name && commands.contains(d)
                            && arg@ == rest,
                        _ => false,
                    }
                } else {
                    match r {
                        Action::Output(UiMessage::PrintLine(t)) => t@ == unknown_command_text(name),
                        _ => false,
                    }
                },
            }
        },
    }
}

/// The action owed to a line read while disconnected.
pub open spec fn disconnected_action(line: Option<Seq<char>>, r: Action) -> bool {
    match line {
        Some(l) => if without_trailing_newlines(l) == "quit"@ {
            r is Quit
        } else {
            r is Idle
        },
        None => r is Idle,
    }
}

/// The state of one interactive session.
pub struct UserInterface {
    current_phase: ConnectionPhase,
    command_descriptors: CommandRegistry,
    current_channel: Option<String>,
}

impl UserInterface {
    pub closed spec fn phase(&self) -> ConnectionPhase {
        self.current_phase
    }

    pub closed spec fn commands(&self) -> Seq<CommandDescriptor> {
        self.command_descriptors@
    }

    pub closed spec fn wf(&self) -> bool {
        self.command_descriptors.wf()
    }

    pub closed spec fn channel(&self) -> Option<Seq<char>> {
        match self.current_channel {
            Some(c) => Some(c@),
            None => None,
        }
    }

    /// A session in the registration phase, knowing the commands `names`,
    /// `join` and `swch`, and in no channel.
    pub fn new() -> (r: UserInterface)
        ensures
            r.wf(),
            r.channel() == None::<Seq<char>>,
            r.phase() == ConnectionPhase::Registration,
            r.commands() == seq![
                CommandDescriptor::Names,
                CommandDescriptor::Join,
                CommandDescriptor::SwitchChannel,
            ],
    {
        UserInterface {
            current_phase: ConnectionPhase::Registration,
            command_descriptors: CommandRegistry::with_defaults(),
            current_channel: None,
        }
    }

    /// The current phase.
    pub fn current_phase(&self) -> (r: ConnectionPhase)
        ensures
            r == self.phase(),
    {
        self.current_phase
    }

    /// The prompt of the current phase.
    pub fn get_current_prompt(&self) -> (r: &'static str)
        ensures
            r@ == prompt_text(self.phase()),
    {
        prompt_for(self.current_phase)
    }

    /// The channel the user is in, if any.
    pub fn current_channel(&self) -> (r: Option<&str>)
        ensures
            line_view(r) == self.channel(),
    {
        match &self.current_channel {
            Some(c) => Some(c.as_str()),
            None => None,
        }
    }

    /// The descriptor registered under `name`, if any.
    pub fn find_command(&self, name: &str) -> (r: Option<CommandDescriptor>)
        requires
            self.wf(),
        ensures
            match r {
                Some(d) => descriptor_name(d) == name@ && self.commands().contains(d),
                None => !has_name(self.commands(), name@),
            },
    {
        self.command_descriptors.find(name)
    }

    /// Handles a line read during registration: the nickname to register is
    /// the line without its trailing newlines; no line means the input ended.
    pub fn run_interface_registration(&self, line: Option<&str>) -> (r: Action)
        ensures
            registration_action(line_view(line), r),
    {
        match line {
            None => Action::Stop,
            Some(l) => Action::Register(String::from_str(strip_trailing_newlines(l))),
        }
    }

    /// Records the outcome of a registration: success moves the session to
    /// the connected phase; failure keeps it in registration and reports the error.
    pub fn registration_result(&mut self, outcome: Result<(), &str>) -> (r: Action)
        requires
            old(self).wf(),
            old(self).phase() == ConnectionPhase::Registration,
        ensures
            final(self).wf(),
            final(self).commands() == old(self).commands(),
            match outcome {
                Ok(()) => final(self).phase() == ConnectionPhase::Connected && r is Idle,
                Err(e) => final(self).phase() == ConnectionPhase::Registration && match r {
                    Action::Output(UiMessage::PrintLine(t)) => t@ == registration_error_text(e@),
                    _ => false,
                },
            },
    {
        match outcome {
            Ok(()) => {
                self.current_phase = ConnectionPhase::Connected;
                Action::Idle
            },
            Err(e) => {
                let mut t = String::from_str("registration error: ");
                t.append(e);
                Action::Output(UiMessage::PrintLine(t))
            },
        }
    }

    /// Handles a line read while connected: a command line is looked up and
    /// dispatched, or reported as unknown; any other line is sent as it is.
    pub fn run_interface_connected(&self, line: Option<&str>) -> (r: Action)
        requires
            self.wf(),
        ensures
            connected_action(self.commands(), line_view(line), r),
    {
        let l = match line {
            None => {
                return Action::Stop;
            },
            Some(l) => l,
        };
        let cleaned = strip_trailing_newlines(l);
        match parse_command(cleaned) {
            Some((name, rest)) => match self.command_descriptors.find(name) {
                Some(d) => Action::Dispatch(d, String::from_str(rest)),
                None => {
                    let mut t = String::from_str("unknown command: ");
                    t.append(name);
                    Action::Output(UiMessage::PrintLine(t))
                },
            },
            None => Action::Send(String::from_str(cleaned)),
        }
    }

    /// Handles a line read while disconnected: `quit` ends the process, and
    /// anything else is ignored.
    pub fn run_interface_disconnected(&self, line: Option<&str>) -> (r: Action)
        ensures
            disconnected_action(line_view(line), r),
    {
        match line {
            Some(l) => if same_text(strip_trailing_newlines(l), "quit") {
                Action::Quit
            } else {
                Action::Idle
            },
            None => Action::Idle,
        }
    }

    /// Handles one line of input (or its absence) in the current phase.
    /// The phase does not change here.
    pub fn run_interface(&self, line: Option<&str>) -> (r: Action)
        requires
            self.wf(),
        ensures
            match self.phase() {
                ConnectionPhase::Registration => registration_action(line_view(line), r),
                ConnectionPhase::Connected => connected_action(self.commands(), line_view(line), r),
                ConnectionPhase::Disconnected => disconnected_action(line_view(line), r),
            },
    {
        match self.current_phase {
            ConnectionPhase::Registration => self.run_interface_registration(line),
            ConnectionPhase::Connected => self.run_interface_connected(line),
            ConnectionPhase::Disconnected => self.run_interface_disconnected(line),
        }
    }

    /// Records that the connection was lost for good.
    pub fn connection_lost(&mut self)
        requires
            old(self).wf(),
        ensures
            final(self).wf(),
            final(self).phase() == ConnectionPhase::Disconnected,
            final(self).commands() == old(self).commands(),
    {
        self.current_phase = ConnectionPhase::Disconnected;
    }
}

} // verus!
