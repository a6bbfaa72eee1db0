//! The subcommands of the configuration tool: each command of the
//! vocabulary is reached by the name of its subject and a name of its own.

use crate::vocabulary::all_commands;
use crate::vocabulary::char_at;
use crate::vocabulary::lemma_vocabulary_complete;
use crate::vocabulary::vocabulary;
use crate::vocabulary::Command;
use crate::wire::same_text;
use vstd::prelude::*;

verus! {

/// What a group of commands is about.
#[derive(Clone, Copy, Debug, PartialEq, Eq, Structural)]
pub enum Subject {
    /// Discover available CXL agents.
    Discover,
    /// Manage Fabric Manager (FM).
    Fm,
    /// Manage CXL switch.
    Switch,
    /// Manage Multi Headed Device (MHD).
    MhDevice,
    /// Manage Logical Device (LD).
    LogicalDevice,
    /// Manage PCI-to-PCI Bridge (PPB).
    Ppb,
    /// Manage physical ports.
    PhysicalPort,
    /// Manage Multi-Logical Device (MLD) ports.
    MldPort,
    /// Manage Dynamic Capacity Device (DCD).
    Dcd,
}

impl Subject {
    /// The name of the subject on the command line.
    pub open spec fn name_spec(self) -> Seq<char> {
        match self {
            Subject::Discover => "discover"@,
            Subject::Fm => "fm"@,
            Subject::Switch => "switch"@,
            Subject::MhDevice => "mh_device"@,
            Subject::LogicalDevice => "logical_device"@,
            Subject::Ppb => "ppb"@,
            Subject::PhysicalPort => "physical_port"@,
            Subject::MldPort => "mld_port"@,
            Subject::Dcd => "dcd"@,
        }
    }

    /// What the subject is about, for the help text.
    pub open spec fn descriptor_spec(self) -> Seq<char> {
        match self {
            Subject::Discover => "Discover available CXL agents"@,
            Subject::Fm => "Manage Fabric Manager (FM)"@,
            Subject::Switch => "Manage CXL switch"@,
            Subject::MhDevice => "Manage Multi Headed Device (MHD)"@,
            Subject::LogicalDevice => "Manage Logical Device (LD)"@,
            Subject::Ppb => "Manage PCI-to-PCI Bridge (PPB)"@,
            Subject::PhysicalPort => "Manage physical ports"@,
            Subject::MldPort => "Manage Multi-Logical Device (MLD) ports"@,
            Subject::Dcd => "Manage Dynamic Capacity Device (DCD)"@,
        }
    }

    /// The name of the subject on the command line.
    pub fn name(&self) -> (name: &'static str)
        ensures
            name@ == self.name_spec(),
    {
        match self {
            Subject::Discover => "discover",
            Subject::Fm => "fm",
            Subject::Switch => "switch",
            Subject::MhDevice => "mh_device",
            Subject::LogicalDevice => "logical_device",
            Subject::Ppb => "ppb",
            Subject::PhysicalPort => "physical_port",
            Subject::MldPort => "mld_port",
            Subject::Dcd => "dcd",
        }
    }

    /// What the subject is about, for the help text.
    pub fn descriptor(&self) -> (descriptor: &'static str)
        ensures
            descriptor@ == self.descriptor_spec(),
    {
        match self {
            Subject::Discover => "Discover available CXL agents",
            Subject::Fm => "Manage Fabric Manager (FM)",
            Subject::Switch => "Manage CXL switch",
            Subject::MhDevice => "Manage Multi Headed Device (MHD)",
            Subject::LogicalDevice => "Manage Logical Device (LD)",
            Subject::Ppb => "Manage PCI-to-PCI Bridge (PPB)",
            Subject::PhysicalPort => "Manage physical ports",
            Subject::MldPort => "Manage Multi-Logical Device (MLD) ports",
            Subject::Dcd => "Manage Dynamic Capacity Device (DCD)",
        }
    }
}

impl Command {
    /// The subject that the command belongs to.
    pub open spec fn subject_spec(self) -> Subject {
        match self {
            Command::DiscoverFm | Command::DiscoverCxlDevice | Command::DiscoverCxlSwitch | Command::DiscoverLd => Subject::Discover,
            Command::GetFmInfo | Command::StartFm | Command::RestartFm | Command::StopFm | Command::GetFmConfig | Command::SetFmConfig | Command::GetFmEvents => Subject::Fm,
            Command::GetSwitchInfo | Command::GetSwitchConfig | Command::SetSwitchConfig => Subject::Switch,
            Command::GetMhdInfo => Subject::MhDevice,
            Command::BindLd | Command::UnbindLd | Command::ConnectMld | Command::DisconnectMld | Command::GetLdAllocation | Command::SetLdAllocation | Command::GetQosControl | Command::SetQosControl | Command::GetQosStatus | Command::GetQosBandwidth | Command::SetQosBandwidth | Command::GetQosBandwidthLimit | Command::SetQosBandwidthLimit | Command::LdErase => Subject::LogicalDevice,
            Command::GetPpbConfig | Command::PpbBind | Command::PpbUnbind => Subject::Ppb,
            Command::GetPhysicalPortInfo | Command::PhysicalPortControl | Command::BindPhysicalPort | Command::UnbindPhysicalPort => Subject::PhysicalPort,
            Command::MldPortTunnel | Command::MldPortSendConfig | Command::MldPortSendMemReq => Subject::MldPort,
            Command::DcdGetInfo | Command::DcdGetConfig | Command::DcdSetConfig | Command::DcdGetExtent | Command::DcdAddCapacity | Command::DcdReleaseCapacity => Subject::Dcd,
        }
    }

    /// The name of the command among those of its subject.
    pub open spec fn subcommand_spec(self) -> Seq<char> {
        match self {
            Command::DiscoverFm => "fm"@,
            Command::DiscoverCxlDevice => "cxl_devices"@,
            Command::DiscoverCxlSwitch => "cxl_switch"@,
            Command::DiscoverLd => "logical_devices"@,
            Command::GetFmInfo => "get_info"@,
            Command::StartFm => "start"@,
            Command::RestartFm => "restart"@,
            Command::StopFm => "stop"@,
            Command::GetFmConfig => "get_config"@,
            Command::SetFmConfig => "set_config"@,
            Command::GetFmEvents => "get_events"@,
            Command::GetSwitchInfo => "get_info"@,
            Command::GetSwitchConfig => "get_config"@,
            Command::SetSwitchConfig => "set_config"@,
            Command::GetMhdInfo => "get_info"@,
            Command::BindLd => "bind"@,
            Command::UnbindLd => "unbind"@,
            Command::ConnectMld => "connect"@,
            Command::DisconnectMld => "disconnect"@,
            Command::GetLdAllocation => "get_allocation"@,
            Command::SetLdAllocation => "set_allocation"@,
            Command::GetQosControl => "get_qos_control"@,
            Command::SetQosControl => "set_qos_control"@,
            Command::GetQosStatus => "get_qos_status"@,
            Command::GetQosBandwidth => "get_qos_allocated_bandwidth"@,
            Command::SetQosBandwidth => "set_qos_allocated_bandwidth"@,
            Command::GetQosBandwidthLimit => "get_qos_bandwidth_limit"@,
            Command::SetQosBandwidthLimit => "set_qos_bandwidth_limit"@,
            Command::LdErase => "erase"@,
            Command::GetPpbConfig => "config"@,
            Command::PpbBind => "bind"@,
            Command::PpbUnbind => "unbind"@,
            Command::GetPhysicalPortInfo => "get_info"@,
            Command::PhysicalPortControl => "control"@,
            Command::BindPhysicalPort => "bind"@,
            Command::UnbindPhysicalPort => "unbind"@,
            Command::MldPortTunnel => "tunnel"@,
            Command::MldPortSendConfig => "send_config"@,
            Command::MldPortSendMemReq => "send_memory_request"@,
            Command::DcdGetInfo => "get_info"@,
            Command::DcdGetConfig => "get_capacity_config"@,
            Command::DcdSetConfig => "set_capacity_config"@,
            Command::DcdGetExtent => "get_extent_list"@,
            Command::DcdAddCapacity => "add_capacity"@,
            Command::DcdReleaseCapacity => "release_capacity"@,
        }
    }

    /// The subject that the command belongs to.
    pub fn subject(&self) -> (subject: Subject)
        ensures
            subject == self.subject_spec(),
    {
        match self {
            Command::DiscoverFm | Command::DiscoverCxlDevice | Command::DiscoverCxlSwitch | Command::DiscoverLd => Subject::Discover,
            Command::GetFmInfo | Command::StartFm | Command::RestartFm | Command::StopFm | Command::GetFmConfig | Command::SetFmConfig | Command::GetFmEvents => Subject::Fm,
            Command::GetSwitchInfo | Command::GetSwitchConfig | Command::SetSwitchConfig => Subject::Switch,
            Command::GetMhdInfo => Subject::MhDevice,
            Command::BindLd | Command::UnbindLd | Command::ConnectMld | Command::DisconnectMld | Command::GetLdAllocation | Command::SetLdAllocation | Command::GetQosControl | Command::SetQosControl | Command::GetQosStatus | Command::GetQosBandwidth | Command::SetQosBandwidth | Command::GetQosBandwidthLimit | Command::SetQosBandwidthLimit | Command::LdErase => Subject::LogicalDevice,
            Command::GetPpbConfig | Command::PpbBind | Command::PpbUnbind => Subject::Ppb,
            Command::GetPhysicalPortInfo | Command::PhysicalPortControl | Command::BindPhysicalPort | Command::UnbindPhysicalPort => Subject::PhysicalPort,
            Command::MldPortTunnel | Command::MldPortSendConfig | Command::MldPortSendMemReq => Subject::MldPort,
            Command::DcdGetInfo | Command::DcdGetConfig | Command::DcdSetConfig | Command::DcdGetExtent | Command::DcdAddCapacity | Command::DcdReleaseCapacity => Subject::Dcd,
        }
    }

    /// The name of the command among those of its subject.
    pub fn subcommand(&self) -> (name: &'static str)
        ensures
            name@ == self.subcommand_spec(),
    {
        match self {
            Command::DiscoverFm => "fm",
            Command::DiscoverCxlDevice => "cxl_devices",
            Command::DiscoverCxlSwitch => "cxl_switch",
            Command::DiscoverLd => "logical_devices",
            Command::GetFmInfo => "get_info",
            Command::StartFm => "start",
            Command::RestartFm => "restart",
            Command::StopFm => "stop",
            Command::GetFmConfig => "get_config",
            Command::SetFmConfig => "set_config",
            Command::GetFmEvents => "get_events",
            Command::GetSwitchInfo => "get_info",
            Command::GetSwitchConfig => "get_config",
            Command::SetSwitchConfig => "set_config",
            Command::GetMhdInfo => "get_info",
            Command::BindLd => "bind",
            Command::UnbindLd => "unbind",
            Command::ConnectMld => "connect",
            Command::DisconnectMld => "disconnect",
            Command::GetLdAllocation => "get_allocation",
            Command::SetLdAllocation => "set_allocation",
            Command::GetQosControl => "get_qos_control",
            Command::SetQosControl => "set_qos_control",
            Command::GetQosStatus => "get_qos_status",
            Command::GetQosBandwidth => "get_qos_allocated_bandwidth",
            Command::SetQosBandwidth => "set_qos_allocated_bandwidth",
            Command::GetQosBandwidthLimit => "get_qos_bandwidth_limit",
            Command::SetQosBandwidthLimit => "set_qos_bandwidth_limit",
            Command::LdErase => "erase",
            Command::GetPpbConfig => "config",
            Command::PpbBind => "bind",
            Command::PpbUnbind => "unbind",
            Command::GetPhysicalPortInfo => "get_info",
            Command::PhysicalPortControl => "control",
            Command::BindPhysicalPort => "bind",
            Command::UnbindPhysicalPort => "unbind",
            Command::MldPortTunnel => "tunnel",
            Command::MldPortSendConfig => "send_config",
            Command::MldPortSendMemReq => "send_memory_request",
            Command::DcdGetInfo => "get_info",
            Command::DcdGetConfig => "get_capacity_config",
            Command::DcdSetConfig => "set_capacity_config",
            Command::DcdGetExtent => "get_extent_list",
            Command::DcdAddCapacity => "add_capacity",
            Command::DcdReleaseCapacity => "release_capacity",
        }
    }
}

/// Every subject, in the order of the help text.
pub open spec fn subjects() -> Seq<Subject> {
    seq![
        Subject::Discover,
        Subject::Fm,
        Subject::Switch,
        Subject::MhDevice,
        Subject::LogicalDevice,
        Subject::Ppb,
        Subject::PhysicalPort,
        Subject::MldPort,
        Subject::Dcd,
    ]
}

/// Whether `command` is the one that the subject named `subject` knows as
/// `subcommand`.
pub open spec fn is_path_of(command: Command, subject: Seq<char>, subcommand: Seq<char>) -> bool {
    command.subject_spec().name_spec() == subject && command.subcommand_spec() == subcommand
}

/// Every subject, each once.
pub fn all_subjects() -> (all: Vec<Subject>)
    ensures
        all@ == subjects(),
{
    let mut all: Vec<Subject> = Vec::new();
    all.push(Subject::Discover);
    all.push(Subject::Fm);
    all.push(Subject::Switch);
    all.push(Subject::MhDevice);
    all.push(Subject::LogicalDevice);
    all.push(Subject::Ppb);
    all.push(Subject::PhysicalPort);
    all.push(Subject::MldPort);
    all.push(Subject::Dcd);
    assert(all@ =~= subjects());
    all
}

/// The commands of `subject`, in the order of the vocabulary.
pub fn subcommands_of(subject: Subject) -> (commands: Vec<Command>)
    ensures
        commands@ == vocabulary().filter(|command: Command| command.subject_spec() == subject),
{
    let all = all_commands();
    let ghost wanted = |command: Command| command.subject_spec() == subject;
    let mut commands: Vec<Command> = Vec::new();
    let mut i: usize = 0;
    proof {
        reveal(Seq::filter);
        assert(vocabulary().take(0).filter(wanted) =~= Seq::<Command>::empty());
    }
    while i < all.len()
        invariant
            all@ == vocabulary(),
            i <= all@.len(),
            wanted == (|command: Command| command.subject_spec() == subject),
            commands@ == vocabulary().take(i as int).filter(wanted),
        decreases all@.len() - i,
    {
        let command = all[i];
        proof {
            reveal(Seq::filter);
            let next = vocabulary().take(i + 1);
            assert(next.drop_last() =~= vocabulary().take(i as int));
            assert(next.last() == command);
        }
        if command.subject() == subject {
            commands.push(command);
        }
        i = i + 1;
    }
    proof {
        assert(vocabulary().take(i as int) =~= vocabulary());
    }
    commands
}

/// Finds the command that the subject named `subject` knows as `subcommand`.
/// `None` when there is no such subject or it has no such subcommand.
pub fn resolve(subject: &str, subcommand: &str) -> (command: Option<Command>)
    ensures
        match command {
            Some(found) => is_path_of(found, subject@, subcommand@),
            None => forall|any: Command| !is_path_of(any, subject@, subcommand@),
        },
{
    let all = all_commands();
    let mut i: usize = 0;
    while i < all.len()
        invariant
            all@ == vocabulary(),
            i <= all@.len(),
            forall|j: int| 0 <= j < i ==> !is_path_of(#[trigger] vocabulary()[j], subject@, subcommand@),
        decreases all@.len() - i,
    {
        let command = all[i];
        if same_text(command.subject().name(), subject) && same_text(
            command.subcommand(),
            subcommand,
        ) {
            return Some(command);
        }
        i = i + 1;
    }
    proof {
        assert forall|any: Command| !is_path_of(any, subject@, subcommand@) by {
            lemma_vocabulary_complete(any);
            let j = choose|j: int| 0 <= j < vocabulary().len() && vocabulary()[j] == any;
            assert(!is_path_of(vocabulary()[j], subject@, subcommand@));
        }
    }
    None
}

/// A short key of a name: its length and the characters at two positions.
/// Names with different keys differ.
spec fn fingerprint(text: Seq<char>) -> (nat, char, char) {
    (text.len(), char_at(text, 0), char_at(text, 4))
}

/// The key of the name of each subject.
spec fn subject_fingerprint(subject: Subject) -> (nat, char, char) {
    match subject {
        Subject::Discover => (8, 'd', 'o'),
        Subject::Fm => (2, 'f', ' '),
        Subject::Switch => (6, 's', 'c'),
        Subject::MhDevice => (9, 'm', 'e'),
        Subject::LogicalDevice => (14, 'l', 'c'),
        Subject::Ppb => (3, 'p', ' '),
        Subject::PhysicalPort => (13, 'p', 'i'),
        Subject::MldPort => (8, 'm', 'p'),
        Subject::Dcd => (3, 'd', ' '),
    }
}

/// The key of the name of each subcommand.
spec fn subcommand_fingerprint(command: Command) -> (nat, char, char) {
    match command {
        Command::DiscoverFm => (2, 'f', ' '),
        Command::DiscoverCxlDevice => (11, 'c', 'd'),
        Command::DiscoverCxlSwitch => (10, 'c', 's'),
        Command::DiscoverLd => (15, 'l', 'c'),
        Command::GetFmInfo => (8, 'g', 'i'),
        Command::StartFm => (5, 's', 't'),
        Command::RestartFm => (7, 'r', 'a'),
        Command::StopFm => (4, 's', ' '),
        Command::GetFmConfig => (10, 'g', 'c'),
        Command::SetFmConfig => (10, 's', 'c'),
        Command::GetFmEvents => (10, 'g', 'e'),
        Command::GetSwitchInfo => (8, 'g', 'i'),
        Command::GetSwitchConfig => (10, 'g', 'c'),
        Command::SetSwitchConfig => (10, 's', 'c'),
        Command::GetMhdInfo => (8, 'g', 'i'),
        Command::BindLd => (4, 'b', ' '),
        Command::UnbindLd => (6, 'u', 'n'),
        Command::ConnectMld => (7, 'c', 'e'),
        Command::DisconnectMld => (10, 'd', 'o'),
        Command::GetLdAllocation => (14, 'g', 'a'),
        Command::SetLdAllocation => (14, 's', 'a'),
        Command::GetQosControl => (15, 'g', 'q'),
        Command::SetQosControl => (15, 's', 'q'),
        Command::GetQosStatus => (14, 'g', 'q'),
        Command::GetQosBandwidth => (27, 'g', 'q'),
        Command::SetQosBandwidth => (27, 's', 'q'),
        Command::GetQosBandwidthLimit => (23, 'g', 'q'),
        Command::SetQosBandwidthLimit => (23, 's', 'q'),
        Command::LdErase => (5, 'e', 'e'),
        Command::GetPpbConfig => (6, 'c', 'i'),
        Command::PpbBind => (4, 'b', ' '),
        Command::PpbUnbind => (6, 'u', 'n'),
        Command::GetPhysicalPortInfo => (8, 'g', 'i'),
        Command::PhysicalPortControl => (7, 'c', 'r'),
        Command::BindPhysicalPort => (4, 'b', ' '),
        Command::UnbindPhysicalPort => (6, 'u', 'n'),
        Command::MldPortTunnel => (6, 't', 'e'),
        Command::MldPortSendConfig => (11, 's', '_'),
        Command::MldPortSendMemReq => (19, 's', '_'),
        Command::DcdGetInfo => (8, 'g', 'i'),
        Command::DcdGetConfig => (19, 'g', 'c'),
        Command::DcdSetConfig => (19, 's', 'c'),
        Command::DcdGetExtent => (15, 'g', 'e'),
        Command::DcdAddCapacity => (12, 'a', 'c'),
        Command::DcdReleaseCapacity => (16, 'r', 'a'),
    }
}

proof fn lemma_subject_fingerprint(subject: Subject)
    ensures
        fingerprint(subject.name_spec()) == subject_fingerprint(subject),
{
    reveal_strlit("discover");
    reveal_strlit("fm");
    reveal_strlit("switch");
    reveal_strlit("mh_device");
    reveal_strlit("logical_device");
    reveal_strlit("ppb");
    reveal_strlit("physical_port");
    reveal_strlit("mld_port");
    reveal_strlit("dcd");
}

proof fn lemma_subcommand_fingerprint(command: Command)
    ensures
        fingerprint(command.subcommand_spec()) == subcommand_fingerprint(command),
{
    reveal_strlit("fm");
    reveal_strlit("cxl_devices");
    reveal_strlit("cxl_switch");
    reveal_strlit("logical_devices");
    reveal_strlit("get_info");
    reveal_strlit("start");
    reveal_strlit("restart");
    reveal_strlit("stop");
    reveal_strlit("get_config");
    reveal_strlit("set_config");
    reveal_strlit("get_events");
    reveal_strlit("bind");
    reveal_strlit("unbind");
    reveal_strlit("connect");
    reveal_strlit("disconnect");
    reveal_strlit("get_allocation");
    reveal_strlit("set_allocation");
    reveal_strlit("get_qos_control");
    reveal_strlit("set_qos_control");
    reveal_strlit("get_qos_status");
    reveal_strlit("get_qos_allocated_bandwidth");
    reveal_strlit("set_qos_allocated_bandwidth");
    reveal_strlit("get_qos_bandwidth_limit");
    reveal_strlit("set_qos_bandwidth_limit");
    reveal_strlit("erase");
    reveal_strlit("config");
    reveal_strlit("control");
    reveal_strlit("tunnel");
    reveal_strlit("send_config");
    reveal_strlit("send_memory_request");
    reveal_strlit("get_capacity_config");
    reveal_strlit("set_capacity_config");
    reveal_strlit("get_extent_list");
    reveal_strlit("add_capacity");
    reveal_strlit("release_capacity");
}

/// No two subjects share a name.
pub proof fn law_subject_names_distinct(a: Subject, b: Subject)
    ensures
        a.name_spec() == b.name_spec() ==> a == b,
{
    lemma_subject_fingerprint(a);
    lemma_subject_fingerprint(b);
}

/// No two commands are reached by the same subject and subcommand, so the
/// command that [`resolve`] finds is the only one with that path.
pub proof fn law_paths_distinct(a: Command, b: Command, subject: Seq<char>, subcommand: Seq<char>)
    requires
        is_path_of(a, subject, subcommand),
        is_path_of(b, subject, subcommand),
    ensures
        a == b,
{
    law_subject_names_distinct(a.subject_spec(), b.subject_spec());
    lemma_subcommand_fingerprint(a);
    lemma_subcommand_fingerprint(b);
}

/// Every command is found again by its own subject and subcommand.
pub proof fn law_every_command_has_a_path(command: Command)
    ensures
        is_path_of(command, command.subject_spec().name_spec(), command.subcommand_spec()),
        subjects().contains(command.subject_spec()),
{
    let all = subjects();
    match command.subject_spec() {
        Subject::Discover => assert(all[0] == command.subject_spec()),
        Subject::Fm => assert(all[1] == command.subject_spec()),
        Subject::Switch => assert(all[2] == command.subject_spec()),
        Subject::MhDevice => assert(all[3] == command.subject_spec()),
        Subject::LogicalDevice => assert(all[4] == command.subject_spec()),
        Subject::Ppb => assert(all[5] == command.subject_spec()),
        Subject::PhysicalPort => assert(all[6] == command.subject_spec()),
        Subject::MldPort => assert(all[7] == command.subject_spec()),
        Subject::Dcd => assert(all[8] == command.subject_spec()),
    }
}

} // verus!
