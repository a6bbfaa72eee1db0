use cxl_fm::catalog::Catalog;
use cxl_fm::options::CxlFmOptions;
use cxl_fm::response::execute;
use cxl_fm::response::Response;
use cxl_fm::roles::requester_catalog;
use cxl_fm::roles::responder_catalog;
use cxl_fm::vocabulary::all_commands;
use cxl_fm::vocabulary::Command;
use cxl_fm::vocabulary::Role;
use cxl_fm::vocabulary::CXL_FM_BIND_LD_COMMAND;
use cxl_fm::vocabulary::CXL_FM_DCD_RELEASE_CAPACITY_COMMAND;
use cxl_fm::vocabulary::CXL_FM_DISCOVER_FM_COMMAND;
use cxl_fm::vocabulary::CXL_FM_GET_FM_INFO_COMMAND;
use cxl_fm::vocabulary::CXL_FM_LD_ERASE;
use cxl_fm::vocabulary::CXL_FM_NO_DATA;
use cxl_fm::vocabulary::CXL_FM_UNKNOWN_COMMAND;
use cxl_fm::wire::check_command_id;

const IDS: [&str; 45] = [
    "DISCOVER_FM",
    "DISCOVER_CXL_DEVICE",
    "DISCOVER_CXL_SWITCH",
    "DISCOVER_LOGICAL_DEVICE",
    "GET_FM_INFO",
    "START_FM",
    "RESTART_FM",
    "STOP_FM",
    "GET_FM_CONFIG",
    "SET_FM_CONFIG",
    "GET_FM_EVENTS",
    "GET_SWITCH_INFO",
    "GET_SWITCH_CONFIG",
    "SET_SWITCH_CONFIG",
    "GET_MHD_INFO",
    "BIND_LOGICAL_DEVICE",
    "UNBIND_LOGICAL_DEVICE",
    "CONNECT_MLD",
    "DISCONNECT_MLD",
    "GET_LD_ALLOCATION",
    "SET_LD_ALLOCATION",
    "GET_LD_QOS_CONTROL",
    "SET_LD_QOS_CONTROL",
    "GET_LD_QOS_STATUS",
    "GET_LD_QOS_BANDWIDTH",
    "SET_LD_QOS_BANDWIDTH",
    "GET_LD_QOS_BANDWIDTH_LIMIT",
    "SET_LD_QOS_BANDWIDTH_LIMIT",
    "LD_ERASE",
    "GET_PPB_CONFIG",
    "PPB_BIND",
    "PPB_UNBIND",
    "GET_PHYSICAL_PORT_INFO",
    "PHYSICAL_PORT_CONTROL",
    "BIND_PHYSICAL_PORT",
    "UNBIND_PHYSICAL_PORT",
    "MLD_PORT_TUNNEL",
    "MLD_PORT_SEND_CONFIG",
    "MLD_PORT_SEND_MEM_REQ",
    "DCD_GET_INFO",
    "DCD_GET_CONFIG",
    "DCD_SET_CONFIG",
    "DCD_GET_EXTENT",
    "DCD_ADD_CAPACITY",
    "DCD_RELEASE_CAPACITY",
];

fn ids_of(catalog: &Catalog<Command>) -> Vec<String> {
    catalog.descriptors().into_iter().map(|descriptor| descriptor.id).collect()
}

const ORCHESTRATOR_IDS: [&str; 4] = ["DISCOVER_FM", "START_FM", "RESTART_FM", "STOP_FM"];

#[test]
fn vocabulary_holds_the_wire_tokens() {
    let ids: Vec<&str> = all_commands().iter().map(|command| command.id()).collect();
    assert_eq!(ids, IDS);
}

#[test]
fn constants_spell_the_wire_tokens() {
    assert_eq!(CXL_FM_DISCOVER_FM_COMMAND, "DISCOVER_FM");
    assert_eq!(CXL_FM_GET_FM_INFO_COMMAND, "GET_FM_INFO");
    assert_eq!(CXL_FM_BIND_LD_COMMAND, "BIND_LOGICAL_DEVICE");
    assert_eq!(CXL_FM_LD_ERASE, "LD_ERASE");
    assert_eq!(CXL_FM_DCD_RELEASE_CAPACITY_COMMAND, "DCD_RELEASE_CAPACITY");
    assert_eq!(CXL_FM_NO_DATA, "NO_DATA");
    assert_eq!(CXL_FM_UNKNOWN_COMMAND, "UNKNOWN_COMMAND");
    assert_eq!(Command::GetFmInfo.id(), CXL_FM_GET_FM_INFO_COMMAND);
    assert_eq!(Command::BindLd.id(), CXL_FM_BIND_LD_COMMAND);
}

#[test]
fn ids_are_unique_and_valid() {
    let commands = all_commands();
    assert_eq!(commands.len(), 45);
    for (i, a) in commands.iter().enumerate() {
        assert!(check_command_id(a.id()));
        for b in commands.iter().skip(i + 1) {
            assert_ne!(a, b);
            assert_ne!(a.id(), b.id());
        }
    }
}

#[test]
fn no_command_is_named_like_a_response() {
    for command in all_commands() {
        assert_ne!(command.id(), "NO_DATA");
        assert_ne!(command.id(), "UNKNOWN_COMMAND");
    }
}

#[test]
fn labels_describe_the_commands() {
    assert_eq!(Command::GetFmInfo.label(), "Get Fabric Manager (FM) status/info");
    assert_eq!(Command::DiscoverFm.label(), "Discover FM instances");
    assert_eq!(Command::LdErase.label(), "Secure erase after unbinding");
    assert_eq!(Command::DcdReleaseCapacity.label(), "Initiate dynamic capacity release");
    for command in all_commands() {
        assert!(!command.label().is_empty());
    }
}

#[test]
fn orchestrator_answers_the_lifecycle_commands() {
    for command in all_commands() {
        let expected = if ORCHESTRATOR_IDS.contains(&command.id()) {
            Role::Orchestrator
        } else {
            Role::FabricManager
        };
        assert_eq!(command.role(), expected);
    }
}

#[test]
fn orchestrator_catalog_holds_its_four_commands() {
    let catalog = responder_catalog(Role::Orchestrator);
    assert_eq!(catalog.len(), 4);
    assert_eq!(ids_of(&catalog), ORCHESTRATOR_IDS);
    assert_eq!(catalog.lookup("DISCOVER_FM"), Some(&Command::DiscoverFm));
    assert_eq!(catalog.lookup("START_FM"), Some(&Command::StartFm));
    assert_eq!(catalog.lookup("RESTART_FM"), Some(&Command::RestartFm));
    assert_eq!(catalog.lookup("STOP_FM"), Some(&Command::StopFm));
    assert_eq!(catalog.lookup("GET_FM_INFO"), None);
    assert_eq!(catalog.label("STOP_FM"), Some("Stop Fabric Manager (FM) instance"));
}

#[test]
fn fabric_manager_catalog_holds_the_other_commands() {
    let catalog = responder_catalog(Role::FabricManager);
    assert_eq!(catalog.len(), 41);
    let expected: Vec<&str> =
        IDS.iter().copied().filter(|id| !ORCHESTRATOR_IDS.contains(id)).collect();
    assert_eq!(ids_of(&catalog), expected);
    for command in all_commands() {
        if ORCHESTRATOR_IDS.contains(&command.id()) {
            assert_eq!(catalog.lookup(command.id()), None);
            assert_eq!(catalog.label(command.id()), None);
        } else {
            assert_eq!(catalog.lookup(command.id()), Some(&command));
            assert_eq!(catalog.label(command.id()), Some(command.label()));
        }
    }
    assert_eq!(catalog.lookup("BOGUS_COMMAND"), None);
    assert_eq!(catalog.lookup("NO_DATA"), None);
    assert_eq!(catalog.lookup(""), None);
}

#[test]
fn requester_catalog_holds_the_whole_vocabulary() {
    let catalog = requester_catalog();
    assert_eq!(catalog.len(), 45);
    assert_eq!(ids_of(&catalog), IDS);
    for (descriptor, command) in catalog.descriptors().iter().zip(all_commands()) {
        assert_eq!(descriptor.id, command.id());
        assert_eq!(descriptor.label, command.label());
    }
    for command in all_commands() {
        assert_eq!(catalog.lookup(command.id()), Some(&command));
        assert_eq!(catalog.label(command.id()), Some(command.label()));
    }
    assert_eq!(catalog.lookup("BOGUS_COMMAND"), None);
}

#[test]
fn responses_have_their_texts_and_lines() {
    assert_eq!(Response::NoData.text(), "NO_DATA");
    assert_eq!(Response::UnknownCommand.text(), "UNKNOWN_COMMAND");
    assert_eq!(Response::NoData.line(), "NO_DATA\n");
    assert_eq!(Response::UnknownCommand.line(), "UNKNOWN_COMMAND\n");
}

#[test]
fn responses_are_read_back_from_their_texts() {
    assert_eq!(Response::parse("NO_DATA"), Some(Response::NoData));
    assert_eq!(Response::parse("UNKNOWN_COMMAND"), Some(Response::UnknownCommand));
    assert_eq!(Response::parse("NO_DATA\n"), None);
    assert_eq!(Response::parse("no_data"), None);
    assert_eq!(Response::parse(""), None);
    assert_eq!(Response::parse("GET_FM_INFO"), None);
}

#[test]
fn every_handler_reports_no_data() {
    for command in all_commands() {
        assert_eq!(execute(command), Response::NoData);
    }
}

#[test]
fn options_join_address_and_port() {
    let options = CxlFmOptions::new("127.0.0.1", "9000", true);
    assert_eq!(options.ip_port, "127.0.0.1:9000");
    assert!(options.is_debug);
    let options = CxlFmOptions::new("localhost", "80", false);
    assert_eq!(options.ip_port, "localhost:80");
    assert!(!options.is_debug);
    let options = CxlFmOptions::new("", "", false);
    assert_eq!(options.ip_port, ":");
}
