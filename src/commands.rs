//! Command descriptors and the registry that looks them up by name.
use vstd::prelude::*;
use crate::text::same_text;

verus! {

/// Something that has a name usable for command lookup.
pub trait CmdDescriptor {
    spec fn spec_name(&self) -> Seq<char>;

    fn name(&self) -> (r: &'static str)
        ensures
            r@ == self.spec_name(),
    ;
}

/// Lists the nicknames present on the current channel.
pub struct CmdNames;

/// Joins a channel.
pub struct CmdJoin;

/// Switches the current channel.
pub struct CmdSwitchChannel;

/// The commands that the client knows, as one tagged value.
#[derive(Clone, Copy, Debug, PartialEq, Eq, Structural)]
pub enum CommandDescriptor {
    Names,
    Join,
    SwitchChannel,
}

/// Result of a command descriptor's name.
pub open spec fn descriptor_name(d: CommandDescriptor) -> Seq<char> {
    match d {
        CommandDescriptor::Names => "names"@,
        CommandDescriptor::Join => "join"@,
        CommandDescriptor::SwitchChannel => "swch"@,
    }
}

impl CmdNames {
    pub fn new() -> (r: CmdNames) {
        CmdNames
    }

    pub fn create() -> (r: CommandDescriptor)
        ensures
            r == CommandDescriptor::Names,
    {
        let _ = CmdNames::new();
        CommandDescriptor::Names
    }
}

impl CmdDescriptor for CmdNames {
    open spec fn spec_name(&self) -> Seq<char> {
        "names"@
    }

    fn name(&self) -> (r: &'static str) {
        "names"
    }
}

impl CmdJoin {
    pub fn new() -> (r: CmdJoin) {
        CmdJoin
    }

    pub fn create() -> (r: CommandDescriptor)
        ensures
            r == CommandDescriptor::Join,
    {
        let _ = CmdJoin::new();
        CommandDescriptor::Join
    }
}

impl CmdDescriptor for CmdJoin {
    open spec fn spec_name(&self) -> Seq<char> {
        "join"@
    }

    fn name(&self) -> (r: &'static str) {
        "join"
    }
}

impl CmdSwitchChannel {
    pub fn new() -> (r: CmdSwitchChannel) {
        CmdSwitchChannel
    }

    pub fn create() -> (r: CommandDescriptor)
        ensures
            r == CommandDescriptor::SwitchChannel,
    {
        let _ = CmdSwitchChannel::new();
        CommandDescriptor::SwitchChannel
    }
}

impl CmdDescriptor for CmdSwitchChannel {
    open spec fn spec_name(&self) -> Seq<char> {
        "swch"@
    }

    fn name(&self) -> (r: &'static str) {
        "swch"
    }
}

impl CmdDescriptor for CommandDescriptor {
    open spec fn spec_name(&self) -> Seq<char> {
        descriptor_name(*self)
    }

    fn name(&self) -> (r: &'static str) {
        match self {
            CommandDescriptor::Names => CmdNames.name(),
            CommandDescriptor::Join => CmdJoin.name(),
            CommandDescriptor::SwitchChannel => CmdSwitchChannel.name(),
        }
    }
}

/// Whether some descriptor of `ds` carries the name `name`.
pub open spec fn has_name(ds: Seq<CommandDescriptor>, name: Seq<char>) -> bool {
    exists|i: int| 0 <= i < ds.len() && descriptor_name(#[trigger] ds[i]) == name
}

/// No two descriptors of `ds` share a name.
pub open spec fn names_unique(ds: Seq<CommandDescriptor>) -> bool {
    forall|i: int, j: int|
        0 <= i < ds.len() && 0 <= j < ds.len() && i != j
            ==> descriptor_name(#[trigger] ds[i]) != descriptor_name(#[trigger] ds[j])
}

/// The first descriptor of `commands` whose name is exactly `command_name`.
pub fn find_command(commands: &Vec<CommandDescriptor>, command_name: &str) -> (r: Option<
    CommandDescriptor,
>)
    ensures
        match r {
            Some(d) => exists|i: int|
                0 <= i < commands@.len() && commands@[i] == d && descriptor_name(d)
                    == command_name@ && forall|j: int|
                    0 <= j < i ==> descriptor_name(#[trigger] commands@[j]) != command_name@,
            None => !has_name(commands@, command_name@),
        },
{
    let mut i: usize = 0;
    while i < commands.len()
        invariant
            i <= commands@.len(),
            forall|j: int| 0 <= j < i ==> descriptor_name(#[trigger] commands@[j]) != command_name@,
        decreases commands@.len() - i,
    {
        let d = commands[i];
        if same_text(command_name, d.name()) {
            return Some(d);
        }
        i = i + 1;
    }
    None
}

/// Why a descriptor could not be added to a registry.
#[derive(Clone, Copy, Debug, PartialEq, Eq, Structural)]
pub enum RegistryError {
    DuplicateName,
}

/// An ordered collection of command descriptors with unique names.
pub struct CommandRegistry {
    descriptors: Vec<CommandDescriptor>,
}

impl View for CommandRegistry {
    type V = Seq<CommandDescriptor>;

    closed spec fn view(&self) -> Seq<CommandDescriptor> {
        self.descriptors@
    }
}

impl CommandRegistry {
    pub open spec fn wf(&self) -> bool {
        names_unique(self@)
    }

    /// A registry with no descriptors.
    pub fn new() -> (r: CommandRegistry)
        ensures
            r.wf(),
            r@ == Seq::<CommandDescriptor>::empty(),
    {
        CommandRegistry { descriptors: Vec::new() }
    }

    /// The registry of the client's commands: `names`, `join` and `swch`, in that order.
    pub fn with_defaults() -> (r: CommandRegistry)
        ensures
            r.wf(),
            r@ == seq![CommandDescriptor::Names, CommandDescriptor::Join, CommandDescriptor::SwitchChannel],
    {
        proof {
            reveal_strlit("names");
            reveal_strlit("join");
            reveal_strlit("swch");
        }
        let ghost n = descriptor_name(CommandDescriptor::Names);
        let ghost j = descriptor_name(CommandDescriptor::Join);
        let ghost w = descriptor_name(CommandDescriptor::SwitchChannel);
        assert(n[0] != j[0] && n[0] != w[0] && j[0] != w[0]);
        let mut r = CommandRegistry::new();
        let _ = r.register(CmdNames::create());
        let _ = r.register(CmdJoin::create());
        let _ = r.register(CmdSwitchChannel::create());
        assert(r@ =~= seq![CommandDescriptor::Names, CommandDescriptor::Join, CommandDescriptor::SwitchChannel]);
        r
    }

    /// Appends `d`, unless a descriptor with the same name is already present.
    pub fn register(&mut self, d: CommandDescriptor) -> (r: Result<(), RegistryError>)
        requires
            old(self).wf(),
        ensures
            final(self).wf(),
            has_name(old(self)@, descriptor_name(d)) ==> r == Err::<(), RegistryError>(
                RegistryError::DuplicateName,
            ) && final(self)@ == old(self)@,
            !has_name(old(self)@, descriptor_name(d)) ==> r == Ok::<(), RegistryError>(())
                && final(self)@ == old(self)@.push(d),
    {
        match find_command(&self.descriptors, d.name()) {
            Some(_) => Err(RegistryError::DuplicateName),
            None => {
                self.descriptors.push(d);
                assert(forall|i: int| 0 <= i < old(self)@.len() ==> self@[i] == old(self)@[i]);
                Ok(())
            },
        }
    }

    /// The descriptor named exactly `name` (case-sensitive), if any.
    pub fn find(&self, name: &str) -> (r: Option<CommandDescriptor>)
        requires
            self.wf(),
        ensures
            match r {
                Some(d) => descriptor_name(d) == name@ && self@.contains(d),
                None => !has_name(self@, name@),
            },
    {
        find_command(&self.descriptors, name)
    }

    /// The number of descriptors held.
    pub fn len(&self) -> (r: usize)
        ensures
            r == self@.len(),
    {
        self.descriptors.len()
    }
}

} // verus!
