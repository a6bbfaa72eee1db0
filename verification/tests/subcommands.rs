use cxl_fm::subcommands::all_subjects;
use cxl_fm::subcommands::resolve;
use cxl_fm::subcommands::subcommands_of;
use cxl_fm::subcommands::Subject;
use cxl_fm::vocabulary::all_commands;
use cxl_fm::vocabulary::Command;

#[test]
fn subjects_have_their_names_and_descriptors() {
    let names: Vec<&str> = all_subjects().iter().map(|subject| subject.name()).collect();
    assert_eq!(
        names,
        [
            "discover",
            "fm",
            "switch",
            "mh_device",
            "logical_device",
            "ppb",
            "physical_port",
            "mld_port",
            "dcd"
        ]
    );
    assert_eq!(Subject::Discover.descriptor(), "Discover available CXL agents");
    assert_eq!(Subject::Fm.descriptor(), "Manage Fabric Manager (FM)");
    assert_eq!(Subject::Switch.descriptor(), "Manage CXL switch");
    assert_eq!(Subject::MhDevice.descriptor(), "Manage Multi Headed Device (MHD)");
    assert_eq!(Subject::LogicalDevice.descriptor(), "Manage Logical Device (LD)");
    assert_eq!(Subject::Ppb.descriptor(), "Manage PCI-to-PCI Bridge (PPB)");
    assert_eq!(Subject::PhysicalPort.descriptor(), "Manage physical ports");
    assert_eq!(Subject::MldPort.descriptor(), "Manage Multi-Logical Device (MLD) ports");
    assert_eq!(Subject::Dcd.descriptor(), "Manage Dynamic Capacity Device (DCD)");
}

#[test]
fn subcommands_send_their_commands() {
    for (subject, subcommand, id) in [
        ("discover", "fm", "DISCOVER_FM"),
        ("discover", "cxl_devices", "DISCOVER_CXL_DEVICE"),
        ("discover", "cxl_switch", "DISCOVER_CXL_SWITCH"),
        ("discover", "logical_devices", "DISCOVER_LOGICAL_DEVICE"),
        ("fm", "get_info", "GET_FM_INFO"),
        ("fm", "start", "START_FM"),
        ("fm", "restart", "RESTART_FM"),
        ("fm", "stop", "STOP_FM"),
        ("fm", "get_config", "GET_FM_CONFIG"),
        ("fm", "set_config", "SET_FM_CONFIG"),
        ("fm", "get_events", "GET_FM_EVENTS"),
        ("switch", "get_info", "GET_SWITCH_INFO"),
        ("switch", "get_config", "GET_SWITCH_CONFIG"),
        ("switch", "set_config", "SET_SWITCH_CONFIG"),
        ("mh_device", "get_info", "GET_MHD_INFO"),
        ("logical_device", "bind", "BIND_LOGICAL_DEVICE"),
        ("logical_device", "unbind", "UNBIND_LOGICAL_DEVICE"),
        ("logical_device", "connect", "CONNECT_MLD"),
        ("logical_device", "disconnect", "DISCONNECT_MLD"),
        ("logical_device", "get_allocation", "GET_LD_ALLOCATION"),
        ("logical_device", "set_allocation", "SET_LD_ALLOCATION"),
        ("logical_device", "get_qos_control", "GET_LD_QOS_CONTROL"),
        ("logical_device", "set_qos_control", "SET_LD_QOS_CONTROL"),
        ("logical_device", "get_qos_status", "GET_LD_QOS_STATUS"),
        ("logical_device", "get_qos_allocated_bandwidth", "GET_LD_QOS_BANDWIDTH"),
        ("logical_device", "set_qos_allocated_bandwidth", "SET_LD_QOS_BANDWIDTH"),
        ("logical_device", "get_qos_bandwidth_limit", "GET_LD_QOS_BANDWIDTH_LIMIT"),
        ("logical_device", "set_qos_bandwidth_limit", "SET_LD_QOS_BANDWIDTH_LIMIT"),
        ("logical_device", "erase", "LD_ERASE"),
        ("ppb", "config", "GET_PPB_CONFIG"),
        ("ppb", "bind", "PPB_BIND"),
        ("ppb", "unbind", "PPB_UNBIND"),
        ("physical_port", "get_info", "GET_PHYSICAL_PORT_INFO"),
        ("physical_port", "control", "PHYSICAL_PORT_CONTROL"),
        ("physical_port", "bind", "BIND_PHYSICAL_PORT"),
        ("physical_port", "unbind", "UNBIND_PHYSICAL_PORT"),
        ("mld_port", "tunnel", "MLD_PORT_TUNNEL"),
        ("mld_port", "send_config", "MLD_PORT_SEND_CONFIG"),
        ("mld_port", "send_memory_request", "MLD_PORT_SEND_MEM_REQ"),
        ("dcd", "get_info", "DCD_GET_INFO"),
        ("dcd", "get_capacity_config", "DCD_GET_CONFIG"),
        ("dcd", "set_capacity_config", "DCD_SET_CONFIG"),
        ("dcd", "get_extent_list", "DCD_GET_EXTENT"),
        ("dcd", "add_capacity", "DCD_ADD_CAPACITY"),
        ("dcd", "release_capacity", "DCD_RELEASE_CAPACITY"),
    ] {
        let command = resolve(subject, subcommand).expect(subcommand);
        assert_eq!(command.id(), id);
        assert_eq!(command.subject().name(), subject);
        assert_eq!(command.subcommand(), subcommand);
    }
}

#[test]
fn every_command_is_found_by_its_own_path() {
    for command in all_commands() {
        assert_eq!(resolve(command.subject().name(), command.subcommand()), Some(command));
    }
}

#[test]
fn unknown_paths_resolve_to_nothing() {
    assert_eq!(resolve("fm", "bind"), None);
    assert_eq!(resolve("ppb", "get_info"), None);
    assert_eq!(resolve("bogus", "get_info"), None);
    assert_eq!(resolve("", ""), None);
    assert_eq!(resolve("fm", ""), None);
    assert_eq!(resolve("", "get_info"), None);
    assert_eq!(resolve("FM", "get_info"), None);
    assert_eq!(resolve("fm", "GET_FM_INFO"), None);
    assert_eq!(resolve("get_info", "fm"), None);
}

#[test]
fn same_subcommand_name_means_another_command_under_another_subject() {
    assert_eq!(resolve("fm", "get_info"), Some(Command::GetFmInfo));
    assert_eq!(resolve("switch", "get_info"), Some(Command::GetSwitchInfo));
    assert_eq!(resolve("mh_device", "get_info"), Some(Command::GetMhdInfo));
    assert_eq!(resolve("physical_port", "get_info"), Some(Command::GetPhysicalPortInfo));
    assert_eq!(resolve("dcd", "get_info"), Some(Command::DcdGetInfo));
    assert_eq!(resolve("logical_device", "bind"), Some(Command::BindLd));
    assert_eq!(resolve("ppb", "bind"), Some(Command::PpbBind));
    assert_eq!(resolve("physical_port", "bind"), Some(Command::BindPhysicalPort));
    assert_eq!(resolve("discover", "fm"), Some(Command::DiscoverFm));
}

#[test]
fn subjects_divide_the_vocabulary() {
    let mut seen: Vec<Command> = Vec::new();
    for subject in all_subjects() {
        let commands = subcommands_of(subject);
        assert!(!commands.is_empty());
        for command in commands {
            assert_eq!(command.subject(), subject);
            seen.push(command);
        }
    }
    assert_eq!(seen, all_commands());
}

#[test]
fn subcommands_keep_the_order_of_the_vocabulary() {
    assert_eq!(subcommands_of(Subject::MhDevice), vec![Command::GetMhdInfo]);
    assert_eq!(
        subcommands_of(Subject::Ppb),
        vec![Command::GetPpbConfig, Command::PpbBind, Command::PpbUnbind]
    );
    assert_eq!(
        subcommands_of(Subject::Discover),
        vec![
            Command::DiscoverFm,
            Command::DiscoverCxlDevice,
            Command::DiscoverCxlSwitch,
            Command::DiscoverLd
        ]
    );
}
