use irc_client::commands::{CmdDescriptor, CmdJoin, CmdNames, CmdSwitchChannel, CommandDescriptor, CommandRegistry, RegistryError, find_command};
use irc_client::output::{render, OutputSlot, UiMessage};
use irc_client::session::{prompt_for, Action, ConnectionPhase, UserInterface};
use irc_client::text::{parse_command, same_text, strip_trailing_newlines};

fn connected() -> UserInterface {
    let mut ui = UserInterface::new();
    assert_eq!(ui.registration_result(Ok(())), Action::Idle);
    ui
}

#[test]
fn plain_line_is_sent_verbatim() {
    let ui = connected();
    assert_eq!(ui.run_interface(Some("hello everyone\n")), Action::Send("hello everyone".to_string()));
    assert_eq!(ui.run_interface(Some("  spaced . text ")), Action::Send("  spaced . text ".to_string()));
    assert_eq!(ui.run_interface(Some("")), Action::Send(String::new()));
}

#[test]
fn known_command_is_dispatched() {
    let ui = connected();
    assert_eq!(
        ui.run_interface(Some(".join #rust\n")),
        Action::Dispatch(CommandDescriptor::Join, "#rust".to_string())
    );
    assert_eq!(ui.run_interface(Some(".names")), Action::Dispatch(CommandDescriptor::Names, String::new()));
    assert_eq!(
        ui.run_interface(Some(".swch #other")),
        Action::Dispatch(CommandDescriptor::SwitchChannel, "#other".to_string())
    );
}

#[test]
fn unknown_command_is_reported() {
    let ui = connected();
    assert_eq!(
        ui.run_interface(Some(".frobnicate\n")),
        Action::Output(UiMessage::PrintLine("unknown command: frobnicate".to_string()))
    );
    assert_eq!(
        ui.run_interface(Some(".JOIN #rust")),
        Action::Output(UiMessage::PrintLine("unknown command: JOIN".to_string()))
    );
    assert_eq!(
        ui.run_interface(Some(".jo #rust")),
        Action::Output(UiMessage::PrintLine("unknown command: jo".to_string()))
    );
}

#[test]
fn command_split_on_first_space() {
    assert_eq!(parse_command(".join #chan extra"), Some(("join", "#chan extra")));
    assert_eq!(parse_command(".names"), Some(("names", "")));
    assert_eq!(parse_command(". x"), Some(("", "x")));
    assert_eq!(parse_command(".a  b"), Some(("a", " b")));
    assert_eq!(parse_command("join #chan"), None);
    assert_eq!(parse_command(""), None);
}

#[test]
fn newlines_stripped_only_at_end() {
    assert_eq!(strip_trailing_newlines("alice\n"), "alice");
    assert_eq!(strip_trailing_newlines("a\nb\n\n"), "a\nb");
    assert_eq!(strip_trailing_newlines("\n"), "");
    assert_eq!(strip_trailing_newlines("plain"), "plain");
    assert!(same_text("quit", "quit"));
    assert!(!same_text("quit", "quiT"));
    assert!(!same_text("quit", "quit "));
}

#[test]
fn registration_success_and_failure() {
    let mut ui = UserInterface::new();
    assert_eq!(ui.current_phase(), ConnectionPhase::Registration);
    assert_eq!(ui.run_interface(Some("alice\n")), Action::Register("alice".to_string()));
    assert_eq!(ui.run_interface(None), Action::Stop);
    assert_eq!(
        ui.registration_result(Err("nickname in use")),
        Action::Output(UiMessage::PrintLine("registration error: nickname in use".to_string()))
    );
    assert_eq!(ui.current_phase(), ConnectionPhase::Registration);
    assert_eq!(ui.registration_result(Ok(())), Action::Idle);
    assert_eq!(ui.current_phase(), ConnectionPhase::Connected);
    assert_eq!(ui.run_interface(None), Action::Stop);
}

#[test]
fn disconnected_quit_and_ignore() {
    let mut ui = connected();
    ui.connection_lost();
    assert_eq!(ui.current_phase(), ConnectionPhase::Disconnected);
    assert_eq!(ui.get_current_prompt(), "[disconnected] !!! ");
    assert_eq!(ui.run_interface(Some("quit\n")), Action::Quit);
    assert_eq!(ui.run_interface(Some("quit")), Action::Quit);
    assert_eq!(ui.run_interface(Some("hello\n")), Action::Idle);
    assert_eq!(ui.run_interface(Some(".join #x")), Action::Idle);
    assert_eq!(ui.run_interface(Some("quit now")), Action::Idle);
    assert_eq!(ui.run_interface(None), Action::Idle);
    assert_eq!(ui.current_phase(), ConnectionPhase::Disconnected);
}

#[test]
fn prompts_by_phase() {
    assert_eq!(prompt_for(ConnectionPhase::Registration), "Please enter your desired nickname: ");
    assert_eq!(prompt_for(ConnectionPhase::Connected), "[connected] >>> ");
    assert_eq!(prompt_for(ConnectionPhase::Disconnected), "[disconnected] !!! ");
    let ui = UserInterface::new();
    assert_eq!(ui.get_current_prompt(), "Please enter your desired nickname: ");
    assert_eq!(ui.current_channel(), None);
}

#[test]
fn end_to_end_session() {
    let mut ui = UserInterface::new();
    let nick = match ui.run_interface(Some("alice\n")) {
        Action::Register(n) => n,
        other => panic!("unexpected {:?}", other),
    };
    assert_eq!(nick, "alice");
    ui.registration_result(Ok(()));
    assert_eq!(ui.current_phase(), ConnectionPhase::Connected);
    assert_eq!(ui.get_current_prompt(), "[connected] >>> ");
    assert_eq!(ui.run_interface(Some("hello everyone\n")), Action::Send("hello everyone".to_string()));
    assert_eq!(ui.find_command("join"), Some(CommandDescriptor::Join));
    assert_eq!(
        ui.run_interface(Some(".join #rust\n")),
        Action::Dispatch(CommandDescriptor::Join, "#rust".to_string())
    );
    assert_eq!(
        ui.run_interface(Some(".frobnicate\n")),
        Action::Output(UiMessage::PrintLine("unknown command: frobnicate".to_string()))
    );
}

#[test]
fn descriptors_and_registry() {
    assert_eq!(CmdNames::create(), CommandDescriptor::Names);
    assert_eq!(CmdJoin::create(), CommandDescriptor::Join);
    assert_eq!(CmdSwitchChannel::create(), CommandDescriptor::SwitchChannel);
    assert_eq!(CmdNames::new().name(), "names");
    assert_eq!(CmdJoin::new().name(), "join");
    assert_eq!(CmdSwitchChannel::new().name(), "swch");
    assert_eq!(CommandDescriptor::SwitchChannel.name(), "swch");

    let mut reg = CommandRegistry::new();
    assert_eq!(reg.len(), 0);
    assert_eq!(reg.find("join"), None);
    assert_eq!(reg.register(CommandDescriptor::Join), Ok(()));
    assert_eq!(reg.register(CommandDescriptor::Join), Err(RegistryError::DuplicateName));
    assert_eq!(reg.len(), 1);
    assert_eq!(reg.find("join"), Some(CommandDescriptor::Join));
    assert_eq!(reg.find("names"), None);
    assert_eq!(CommandRegistry::with_defaults().len(), 3);

    let list = vec![CommandDescriptor::Names, CommandDescriptor::Join];
    assert_eq!(find_command(&list, "join"), Some(CommandDescriptor::Join));
    assert_eq!(find_command(&list, "swch"), None);
    assert_eq!(find_command(&list, ""), None);
}

#[test]
fn messages_render_with_carriage_return() {
    assert_eq!(render(&UiMessage::PrintLine("hi".to_string())), "\rhi\n");
    assert_eq!(render(&UiMessage::UpdatePrompt("[connected] >>> ".to_string())), "\r[connected] >>> \n");
    assert!(UiMessage::UpdatePrompt(String::new()).needs_flush());
    assert!(!UiMessage::PrintLine(String::new()).needs_flush());
    assert_eq!(UiMessage::PrintLine("x".to_string()).text(), "x");
}

#[test]
fn slot_holds_one_message_in_order() {
    let mut slot = OutputSlot::new();
    assert!(!slot.is_full());
    assert_eq!(slot.take(), None);
    let m1 = UiMessage::PrintLine("one".to_string());
    let m2 = UiMessage::PrintLine("two".to_string());
    let m3 = UiMessage::UpdatePrompt("three".to_string());
    assert_eq!(slot.offer(m1.clone()), Ok(()));
    assert!(slot.is_full());
    assert_eq!(slot.offer(m2.clone()), Err(m2.clone()));
    assert_eq!(slot.take(), Some(m1));
    assert_eq!(slot.offer(m2.clone()), Ok(()));
    assert_eq!(slot.take(), Some(m2));
    assert_eq!(slot.offer(m3.clone()), Ok(()));
    assert_eq!(slot.take(), Some(m3));
    assert_eq!(slot.take(), None);
}
