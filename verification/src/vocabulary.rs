//! The command vocabulary: the identifiers that travel on the wire, the
//! operations they name and the two service responses.

use crate::wire::is_command_id;
use vstd::prelude::*;

verus! {

// Discovery.
pub const CXL_FM_DISCOVER_FM_COMMAND: &'static str = "DISCOVER_FM";
pub const CXL_FM_DISCOVER_CXL_DEVICE_COMMAND: &'static str = "DISCOVER_CXL_DEVICE";
pub const CXL_FM_DISCOVER_CXL_SWITCH_COMMAND: &'static str = "DISCOVER_CXL_SWITCH";
pub const CXL_FM_DISCOVER_LD_COMMAND: &'static str = "DISCOVER_LOGICAL_DEVICE";

// Fabric manager lifecycle, configuration and events.
pub const CXL_FM_GET_FM_INFO_COMMAND: &'static str = "GET_FM_INFO";
pub const CXL_FM_START_FM_COMMAND: &'static str = "START_FM";
pub const CXL_FM_RESTART_FM_COMMAND: &'static str = "RESTART_FM";
pub const CXL_FM_STOP_FM_COMMAND: &'static str = "STOP_FM";
pub const CXL_FM_GET_FM_CONFIG_COMMAND: &'static str = "GET_FM_CONFIG";
pub const CXL_FM_SET_FM_CONFIG_COMMAND: &'static str = "SET_FM_CONFIG";
pub const CXL_FM_GET_FM_EVENTS_COMMAND: &'static str = "GET_FM_EVENTS";

// Switch.
pub const CXL_FM_GET_SWITCH_INFO_COMMAND: &'static str = "GET_SWITCH_INFO";
pub const CXL_FM_GET_SWITCH_CONFIG_COMMAND: &'static str = "GET_SWITCH_CONFIG";
pub const CXL_FM_SET_SWITCH_CONFIG_COMMAND: &'static str = "SET_SWITCH_CONFIG";

// Multi-headed device.
pub const CXL_FM_GET_MHD_INFO_COMMAND: &'static str = "GET_MHD_INFO";

// Logical device.
pub const CXL_FM_BIND_LD_COMMAND: &'static str = "BIND_LOGICAL_DEVICE";
pub const CXL_FM_UNBIND_LD_COMMAND: &'static str = "UNBIND_LOGICAL_DEVICE";
pub const CXL_FM_CONNECT_MLD_COMMAND: &'static str = "CONNECT_MLD";
pub const CXL_FM_DISCONNECT_MLD_COMMAND: &'static str = "DISCONNECT_MLD";
pub const CXL_FM_GET_LD_ALLOCATION_COMMAND: &'static str = "GET_LD_ALLOCATION";
pub const CXL_FM_SET_LD_ALLOCATION_COMMAND: &'static str = "SET_LD_ALLOCATION";
pub const CXL_FM_GET_QOS_CONTROL_COMMAND: &'static str = "GET_LD_QOS_CONTROL";
pub const CXL_FM_SET_QOS_CONTROL_COMMAND: &'static str = "SET_LD_QOS_CONTROL";
pub const CXL_FM_GET_QOS_STATUS_COMMAND: &'static str = "GET_LD_QOS_STATUS";
pub const CXL_FM_GET_QOS_BANDWIDTH_COMMAND: &'static str = "GET_LD_QOS_BANDWIDTH";
pub const CXL_FM_SET_QOS_BANDWIDTH_COMMAND: &'static str = "SET_LD_QOS_BANDWIDTH";
pub const CXL_FM_GET_QOS_BANDWIDTH_LIMIT_COMMAND: &'static str = "GET_LD_QOS_BANDWIDTH_LIMIT";
pub const CXL_FM_SET_QOS_BANDWIDTH_LIMIT_COMMAND: &'static str = "SET_LD_QOS_BANDWIDTH_LIMIT";
pub const CXL_FM_LD_ERASE: &'static str = "LD_ERASE";

// PCI-to-PCI bridge.
pub const CXL_FM_GET_PPB_CONFIG_COMMAND: &'static str = "GET_PPB_CONFIG";
pub const CXL_FM_PPB_BIND_COMMAND: &'static str = "PPB_BIND";
pub const CXL_FM_PPB_UNBIND_COMMAND: &'static str = "PPB_UNBIND";

// Physical port.
pub const CXL_FM_GET_PHYSICAL_PORT_INFO_COMMAND: &'static str = "GET_PHYSICAL_PORT_INFO";
pub const CXL_FM_PHYSICAL_PORT_CONTROL_COMMAND: &'static str = "PHYSICAL_PORT_CONTROL";
pub const CXL_FM_BIND_PHYSICAL_PORT_COMMAND: &'static str = "BIND_PHYSICAL_PORT";
pub const CXL_FM_UNBIND_PHYSICAL_PORT_COMMAND: &'static str = "UNBIND_PHYSICAL_PORT";

// Multi-logical-device port.
pub const CXL_FM_MLD_PORT_TUNNEL_COMMAND: &'static str = "MLD_PORT_TUNNEL";
pub const CXL_FM_MLD_PORT_SEND_CONFIG_COMMAND: &'static str = "MLD_PORT_SEND_CONFIG";
pub const CXL_FM_MLD_PORT_SEND_MEM_REQ_COMMAND: &'static str = "MLD_PORT_SEND_MEM_REQ";

// Dynamic capacity device.
pub const CXL_FM_DCD_GET_INFO_COMMAND: &'static str = "DCD_GET_INFO";
pub const CXL_FM_DCD_GET_CONFIG_COMMAND: &'static str = "DCD_GET_CONFIG";
pub const CXL_FM_DCD_SET_CONFIG_COMMAND: &'static str = "DCD_SET_CONFIG";
pub const CXL_FM_DCD_GET_EXTENT_COMMAND: &'static str = "DCD_GET_EXTENT";
pub const CXL_FM_DCD_ADD_CAPACITY_COMMAND: &'static str = "DCD_ADD_CAPACITY";
pub const CXL_FM_DCD_RELEASE_CAPACITY_COMMAND: &'static str = "DCD_RELEASE_CAPACITY";

// Service responses.
pub const CXL_FM_UNKNOWN_COMMAND: &'static str = "UNKNOWN_COMMAND";
pub const CXL_FM_NO_DATA: &'static str = "NO_DATA";

/// The process that answers a command.
#[derive(Clone, Copy, Debug, PartialEq, Eq, Structural)]
pub enum Role {
    /// The orchestrator, which fronts the fabric managers.
    Orchestrator,
    /// A fabric manager daemon.
    FabricManager,
}

/// An operation of the vocabulary. On the responder side a command stands
/// for the handler that carries the operation out.
#[derive(Clone, Copy, Debug, PartialEq, Eq, Structural)]
pub enum Command {
    /// Discover FM instances.
    DiscoverFm,
    /// Discover CXL devices.
    DiscoverCxlDevice,
    /// Discover CXL switches.
    DiscoverCxlSwitch,
    /// Discover logical devices.
    DiscoverLd,
    /// Get Fabric Manager (FM) status/info.
    GetFmInfo,
    /// Start Fabric Manager (FM) instance.
    StartFm,
    /// Restart Fabric Manager (FM) instance.
    RestartFm,
    /// Stop Fabric Manager (FM) instance.
    StopFm,
    /// Get Fabric Manager (FM) configuration.
    GetFmConfig,
    /// Set Fabric Manager (FM) configuration.
    SetFmConfig,
    /// Get Fabric Manager (FM) event records.
    GetFmEvents,
    /// Get CXL switch status/info.
    GetSwitchInfo,
    /// Get CXL switch configuration.
    GetSwitchConfig,
    /// Set CXL switch configuration.
    SetSwitchConfig,
    /// Get Multi Headed Device (MHD) status/info.
    GetMhdInfo,
    /// Bind Logical Device (LD).
    BindLd,
    /// Unbind Logical Device (LD).
    UnbindLd,
    /// Connect Multi Logical Device (MLD) to CXL switch.
    ConnectMld,
    /// Disconnect Multi Logical Device (MLD) from CXL switch.
    DisconnectMld,
    /// Get Logical Device (LD) allocations.
    GetLdAllocation,
    /// Set Logical Device (LD) allocations.
    SetLdAllocation,
    /// Get QoS control.
    GetQosControl,
    /// Set QoS control.
    SetQosControl,
    /// Get QoS status.
    GetQosStatus,
    /// Get QoS allocated bandwidth.
    GetQosBandwidth,
    /// Set QoS allocated bandwidth.
    SetQosBandwidth,
    /// Get QoS bandwidth limit.
    GetQosBandwidthLimit,
    /// Set QoS bandwidth limit.
    SetQosBandwidthLimit,
    /// Secure erase after unbinding.
    LdErase,
    /// Send PCI-to-PCI Bridge (PPB) configuration request.
    GetPpbConfig,
    /// Bind Virtual PCI-to-PCI Bridge (vPPB) inside a CXL switch.
    PpbBind,
    /// Unbind Virtual PCI-to-PCI Bridge (vPPB) inside a CXL switch.
    PpbUnbind,
    /// Get state of physical port.
    GetPhysicalPortInfo,
    /// Control physical port.
    PhysicalPortControl,
    /// Bind physical port to Virtual PCI-to-PCI Bridge (vPPB).
    BindPhysicalPort,
    /// Unbind physical port from Virtual PCI-to-PCI Bridge (vPPB).
    UnbindPhysicalPort,
    /// Tunnel Management Command.
    MldPortTunnel,
    /// Send CXL.io configuration request.
    MldPortSendConfig,
    /// Send CXL.io memory request.
    MldPortSendMemReq,
    /// Get Dynamic Capacity Device (DCD) info.
    DcdGetInfo,
    /// Get dynamic capacity region configuration.
    DcdGetConfig,
    /// Set dynamic capacity region configuration.
    DcdSetConfig,
    /// Get Dynamic Capacity Device (DCD) extent list.
    DcdGetExtent,
    /// Initiate dynamic capacity add.
    DcdAddCapacity,
    /// Initiate dynamic capacity release.
    DcdReleaseCapacity,
}

impl Command {
    /// The identifier of the command on the wire.
    pub open spec fn id_spec(self) -> Seq<char> {
        match self {
            Command::DiscoverFm => CXL_FM_DISCOVER_FM_COMMAND@,
            Command::DiscoverCxlDevice => CXL_FM_DISCOVER_CXL_DEVICE_COMMAND@,
            Command::DiscoverCxlSwitch => CXL_FM_DISCOVER_CXL_SWITCH_COMMAND@,
            Command::DiscoverLd => CXL_FM_DISCOVER_LD_COMMAND@,
            Command::GetFmInfo => CXL_FM_GET_FM_INFO_COMMAND@,
            Command::StartFm => CXL_FM_START_FM_COMMAND@,
            Command::RestartFm => CXL_FM_RESTART_FM_COMMAND@,
            Command::StopFm => CXL_FM_STOP_FM_COMMAND@,
            Command::GetFmConfig => CXL_FM_GET_FM_CONFIG_COMMAND@,
            Command::SetFmConfig => CXL_FM_SET_FM_CONFIG_COMMAND@,
            Command::GetFmEvents => CXL_FM_GET_FM_EVENTS_COMMAND@,
            Command::GetSwitchInfo => CXL_FM_GET_SWITCH_INFO_COMMAND@,
            Command::GetSwitchConfig => CXL_FM_GET_SWITCH_CONFIG_COMMAND@,
            Command::SetSwitchConfig => CXL_FM_SET_SWITCH_CONFIG_COMMAND@,
            Command::GetMhdInfo => CXL_FM_GET_MHD_INFO_COMMAND@,
            Command::BindLd => CXL_FM_BIND_LD_COMMAND@,
            Command::UnbindLd => CXL_FM_UNBIND_LD_COMMAND@,
            Command::ConnectMld => CXL_FM_CONNECT_MLD_COMMAND@,
            Command::DisconnectMld => CXL_FM_DISCONNECT_MLD_COMMAND@,
            Command::GetLdAllocation => CXL_FM_GET_LD_ALLOCATION_COMMAND@,
            Command::SetLdAllocation => CXL_FM_SET_LD_ALLOCATION_COMMAND@,
            Command::GetQosControl => CXL_FM_GET_QOS_CONTROL_COMMAND@,
            Command::SetQosControl => CXL_FM_SET_QOS_CONTROL_COMMAND@,
            Command::GetQosStatus => CXL_FM_GET_QOS_STATUS_COMMAND@,
            Command::GetQosBandwidth => CXL_FM_GET_QOS_BANDWIDTH_COMMAND@,
            Command::SetQosBandwidth => CXL_FM_SET_QOS_BANDWIDTH_COMMAND@,
            Command::GetQosBandwidthLimit => CXL_FM_GET_QOS_BANDWIDTH_LIMIT_COMMAND@,
            Command::SetQosBandwidthLimit => CXL_FM_SET_QOS_BANDWIDTH_LIMIT_COMMAND@,
            Command::LdErase => CXL_FM_LD_ERASE@,
            Command::GetPpbConfig => CXL_FM_GET_PPB_CONFIG_COMMAND@,
            Command::PpbBind => CXL_FM_PPB_BIND_COMMAND@,
            Command::PpbUnbind => CXL_FM_PPB_UNBIND_COMMAND@,
            Command::GetPhysicalPortInfo => CXL_FM_GET_PHYSICAL_PORT_INFO_COMMAND@,
            Command::PhysicalPortControl => CXL_FM_PHYSICAL_PORT_CONTROL_COMMAND@,
            Command::BindPhysicalPort => CXL_FM_BIND_PHYSICAL_PORT_COMMAND@,
            Command::UnbindPhysicalPort => CXL_FM_UNBIND_PHYSICAL_PORT_COMMAND@,
            Command::MldPortTunnel => CXL_FM_MLD_PORT_TUNNEL_COMMAND@,
            Command::MldPortSendConfig => CXL_FM_MLD_PORT_SEND_CONFIG_COMMAND@,
            Command::MldPortSendMemReq => CXL_FM_MLD_PORT_SEND_MEM_REQ_COMMAND@,
            Command::DcdGetInfo => CXL_FM_DCD_GET_INFO_COMMAND@,
            Command::DcdGetConfig => CXL_FM_DCD_GET_CONFIG_COMMAND@,
            Command::DcdSetConfig => CXL_FM_DCD_SET_CONFIG_COMMAND@,
            Command::DcdGetExtent => CXL_FM_DCD_GET_EXTENT_COMMAND@,
            Command::DcdAddCapacity => CXL_FM_DCD_ADD_CAPACITY_COMMAND@,
            Command::DcdReleaseCapacity => CXL_FM_DCD_RELEASE_CAPACITY_COMMAND@,
        }
    }

    /// The human-readable label of the command, for diagnostics.
    pub open spec fn label_spec(self) -> Seq<char> {
        match self {
            Command::DiscoverFm => "Discover FM instances"@,
            Command::DiscoverCxlDevice => "Discover CXL devices"@,
            Command::DiscoverCxlSwitch => "Discover CXL switches"@,
            Command::DiscoverLd => "Discover logical devices"@,
            Command::GetFmInfo => "Get Fabric Manager (FM) status/info"@,
            Command::StartFm => "Start Fabric Manager (FM) instance"@,
            Command::RestartFm => "Restart Fabric Manager (FM) instance"@,
            Command::StopFm => "Stop Fabric Manager (FM) instance"@,
            Command::GetFmConfig => "Get Fabric Manager (FM) configuration"@,
            Command::SetFmConfig => "Set Fabric Manager (FM) configuration"@,
            Command::GetFmEvents => "Get Fabric Manager (FM) event records"@,
            Command::GetSwitchInfo => "Get CXL switch status/info"@,
            Command::GetSwitchConfig => "Get CXL switch configuration"@,
            Command::SetSwitchConfig => "Set CXL switch configuration"@,
            Command::GetMhdInfo => "Get Multi Headed Device (MHD) status/info"@,
            Command::BindLd => "Bind Logical Device (LD)"@,
            Command::UnbindLd => "Unbind Logical Device (LD)"@,
            Command::ConnectMld => "Connect Multi Logical Device (MLD) to CXL switch"@,
            Command::DisconnectMld => "Disconnect Multi Logical Device (MLD) from CXL switch"@,
            Command::GetLdAllocation => "Get Logical Device (LD) allocations"@,
            Command::SetLdAllocation => "Set Logical Device (LD) allocations"@,
            Command::GetQosControl => "Get QoS control"@,
            Command::SetQosControl => "Set QoS control"@,
            Command::GetQosStatus => "Get QoS status"@,
            Command::GetQosBandwidth => "Get QoS allocated bandwidth"@,
            Command::SetQosBandwidth => "Set QoS allocated bandwidth"@,
            Command::GetQosBandwidthLimit => "Get QoS bandwidth limit"@,
            Command::SetQosBandwidthLimit => "Set QoS bandwidth limit"@,
            Command::LdErase => "Secure erase after unbinding"@,
            Command::GetPpbConfig => "Send PCI-to-PCI Bridge (PPB) configuration request"@,
            Command::PpbBind => "Bind Virtual PCI-to-PCI Bridge (vPPB) inside a CXL switch"@,
            Command::PpbUnbind => "Unbind Virtual PCI-to-PCI Bridge (vPPB) inside a CXL switch"@,
            Command::GetPhysicalPortInfo => "Get state of physical port"@,
            Command::PhysicalPortControl => "Control physical port"@,
            Command::BindPhysicalPort => "Bind physical port to Virtual PCI-to-PCI Bridge (vPPB)"@,
            Command::UnbindPhysicalPort => "Unbind physical port from Virtual PCI-to-PCI Bridge (vPPB)"@,
            Command::MldPortTunnel => "Tunnel Management Command"@,
            Command::MldPortSendConfig => "Send CXL.io configuration request"@,
            Command::MldPortSendMemReq => "Send CXL.io memory request"@,
            Command::DcdGetInfo => "Get Dynamic Capacity Device (DCD) info"@,
            Command::DcdGetConfig => "Get dynamic capacity region configuration"@,
            Command::DcdSetConfig => "Set dynamic capacity region configuration"@,
            Command::DcdGetExtent => "Get Dynamic Capacity Device (DCD) extent list"@,
            Command::DcdAddCapacity => "Initiate dynamic capacity add"@,
            Command::DcdReleaseCapacity => "Initiate dynamic capacity release"@,
        }
    }

    /// The process that answers the command.
    pub open spec fn role_spec(self) -> Role {
        match self {
            Command::DiscoverFm | Command::StartFm | Command::RestartFm | Command::StopFm => {
                Role::Orchestrator
            },
            _ => Role::FabricManager,
        }
    }

    /// The identifier of the command on the wire.
    pub fn id(&self) -> (id: &'static str)
        ensures
            id@ == self.id_spec(),
    {
        match self {
            Command::DiscoverFm => CXL_FM_DISCOVER_FM_COMMAND,
            Command::DiscoverCxlDevice => CXL_FM_DISCOVER_CXL_DEVICE_COMMAND,
            Command::DiscoverCxlSwitch => CXL_FM_DISCOVER_CXL_SWITCH_COMMAND,
            Command::DiscoverLd => CXL_FM_DISCOVER_LD_COMMAND,
            Command::GetFmInfo => CXL_FM_GET_FM_INFO_COMMAND,
            Command::StartFm => CXL_FM_START_FM_COMMAND,
            Command::RestartFm => CXL_FM_RESTART_FM_COMMAND,
            Command::StopFm => CXL_FM_STOP_FM_COMMAND,
            Command::GetFmConfig => CXL_FM_GET_FM_CONFIG_COMMAND,
            Command::SetFmConfig => CXL_FM_SET_FM_CONFIG_COMMAND,
            Command::GetFmEvents => CXL_FM_GET_FM_EVENTS_COMMAND,
            Command::GetSwitchInfo => CXL_FM_GET_SWITCH_INFO_COMMAND,
            Command::GetSwitchConfig => CXL_FM_GET_SWITCH_CONFIG_COMMAND,
            Command::SetSwitchConfig => CXL_FM_SET_SWITCH_CONFIG_COMMAND,
            Command::GetMhdInfo => CXL_FM_GET_MHD_INFO_COMMAND,
            Command::BindLd => CXL_FM_BIND_LD_COMMAND,
            Command::UnbindLd => CXL_FM_UNBIND_LD_COMMAND,
            Command::ConnectMld => CXL_FM_CONNECT_MLD_COMMAND,
            Command::DisconnectMld => CXL_FM_DISCONNECT_MLD_COMMAND,
            Command::GetLdAllocation => CXL_FM_GET_LD_ALLOCATION_COMMAND,
            Command::SetLdAllocation => CXL_FM_SET_LD_ALLOCATION_COMMAND,
            Command::GetQosControl => CXL_FM_GET_QOS_CONTROL_COMMAND,
            Command::SetQosControl => CXL_FM_SET_QOS_CONTROL_COMMAND,
            Command::GetQosStatus => CXL_FM_GET_QOS_STATUS_COMMAND,
            Command::GetQosBandwidth => CXL_FM_GET_QOS_BANDWIDTH_COMMAND,
            Command::SetQosBandwidth => CXL_FM_SET_QOS_BANDWIDTH_COMMAND,
            Command::GetQosBandwidthLimit => CXL_FM_GET_QOS_BANDWIDTH_LIMIT_COMMAND,
            Command::SetQosBandwidthLimit => CXL_FM_SET_QOS_BANDWIDTH_LIMIT_COMMAND,
            Command::LdErase => CXL_FM_LD_ERASE,
            Command::GetPpbConfig => CXL_FM_GET_PPB_CONFIG_COMMAND,
            Command::PpbBind => CXL_FM_PPB_BIND_COMMAND,
            Command::PpbUnbind => CXL_FM_PPB_UNBIND_COMMAND,
            Command::GetPhysicalPortInfo => CXL_FM_GET_PHYSICAL_PORT_INFO_COMMAND,
            Command::PhysicalPortControl => CXL_FM_PHYSICAL_PORT_CONTROL_COMMAND,
            Command::BindPhysicalPort => CXL_FM_BIND_PHYSICAL_PORT_COMMAND,
            Command::UnbindPhysicalPort => CXL_FM_UNBIND_PHYSICAL_PORT_COMMAND,
            Command::MldPortTunnel => CXL_FM_MLD_PORT_TUNNEL_COMMAND,
            Command::MldPortSendConfig => CXL_FM_MLD_PORT_SEND_CONFIG_COMMAND,
            Command::MldPortSendMemReq => CXL_FM_MLD_PORT_SEND_MEM_REQ_COMMAND,
            Command::DcdGetInfo => CXL_FM_DCD_GET_INFO_COMMAND,
            Command::DcdGetConfig => CXL_FM_DCD_GET_CONFIG_COMMAND,
            Command::DcdSetConfig => CXL_FM_DCD_SET_CONFIG_COMMAND,
            Command::DcdGetExtent => CXL_FM_DCD_GET_EXTENT_COMMAND,
            Command::DcdAddCapacity => CXL_FM_DCD_ADD_CAPACITY_COMMAND,
            Command::DcdReleaseCapacity => CXL_FM_DCD_RELEASE_CAPACITY_COMMAND,
        }
    }

    /// The human-readable label of the command, for diagnostics.
    pub fn label(&self) -> (label: &'static str)
        ensures
            label@ == self.label_spec(),
    {
        match self {
            Command::DiscoverFm => "Discover FM instances",
            Command::DiscoverCxlDevice => "Discover CXL devices",
            Command::DiscoverCxlSwitch => "Discover CXL switches",
            Command::DiscoverLd => "Discover logical devices",
            Command::GetFmInfo => "Get Fabric Manager (FM) status/info",
            Command::StartFm => "Start Fabric Manager (FM) instance",
            Command::RestartFm => "Restart Fabric Manager (FM) instance",
            Command::StopFm => "Stop Fabric Manager (FM) instance",
            Command::GetFmConfig => "Get Fabric Manager (FM) configuration",
            Command::SetFmConfig => "Set Fabric Manager (FM) configuration",
            Command::GetFmEvents => "Get Fabric Manager (FM) event records",
            Command::GetSwitchInfo => "Get CXL switch status/info",
            Command::GetSwitchConfig => "Get CXL switch configuration",
            Command::SetSwitchConfig => "Set CXL switch configuration",
            Command::GetMhdInfo => "Get Multi Headed Device (MHD) status/info",
            Command::BindLd => "Bind Logical Device (LD)",
            Command::UnbindLd => "Unbind Logical Device (LD)",
            Command::ConnectMld => "Connect Multi Logical Device (MLD) to CXL switch",
            Command::DisconnectMld => "Disconnect Multi Logical Device (MLD) from CXL switch",
            Command::GetLdAllocation => "Get Logical Device (LD) allocations",
            Command::SetLdAllocation => "Set Logical Device (LD) allocations",
            Command::GetQosControl => "Get QoS control",
            Command::SetQosControl => "Set QoS control",
            Command::GetQosStatus => "Get QoS status",
            Command::GetQosBandwidth => "Get QoS allocated bandwidth",
            Command::SetQosBandwidth => "Set QoS allocated bandwidth",
            Command::GetQosBandwidthLimit => "Get QoS bandwidth limit",
            Command::SetQosBandwidthLimit => "Set QoS bandwidth limit",
            Command::LdErase => "Secure erase after unbinding",
            Command::GetPpbConfig => "Send PCI-to-PCI Bridge (PPB) configuration request",
            Command::PpbBind => "Bind Virtual PCI-to-PCI Bridge (vPPB) inside a CXL switch",
            Command::PpbUnbind => "Unbind Virtual PCI-to-PCI Bridge (vPPB) inside a CXL switch",
            Command::GetPhysicalPortInfo => "Get state of physical port",
            Command::PhysicalPortControl => "Control physical port",
            Command::BindPhysicalPort => "Bind physical port to Virtual PCI-to-PCI Bridge (vPPB)",
            Command::UnbindPhysicalPort => "Unbind physical port from Virtual PCI-to-PCI Bridge (vPPB)",
            Command::MldPortTunnel => "Tunnel Management Command",
            Command::MldPortSendConfig => "Send CXL.io configuration request",
            Command::MldPortSendMemReq => "Send CXL.io memory request",
            Command::DcdGetInfo => "Get Dynamic Capacity Device (DCD) info",
            Command::DcdGetConfig => "Get dynamic capacity region configuration",
            Command::DcdSetConfig => "Set dynamic capacity region configuration",
            Command::DcdGetExtent => "Get Dynamic Capacity Device (DCD) extent list",
            Command::DcdAddCapacity => "Initiate dynamic capacity add",
            Command::DcdReleaseCapacity => "Initiate dynamic capacity release",
        }
    }

    /// The process that answers the command.
    pub fn role(&self) -> (role: Role)
        ensures
            role == self.role_spec(),
    {
        match self {
            Command::DiscoverFm | Command::StartFm | Command::RestartFm | Command::StopFm => {
                Role::Orchestrator
            },
            _ => Role::FabricManager,
        }
    }
}

/// Every command of the vocabulary, in the order of the table above.
pub open spec fn vocabulary() -> Seq<Command> {
    seq![
        Command::DiscoverFm,
        Command::DiscoverCxlDevice,
        Command::DiscoverCxlSwitch,
        Command::DiscoverLd,
        Command::GetFmInfo,
        Command::StartFm,
        Command::RestartFm,
        Command::StopFm,
        Command::GetFmConfig,
        Command::SetFmConfig,
        Command::GetFmEvents,
        Command::GetSwitchInfo,
        Command::GetSwitchConfig,
        Command::SetSwitchConfig,
        Command::GetMhdInfo,
        Command::BindLd,
        Command::UnbindLd,
        Command::ConnectMld,
        Command::DisconnectMld,
        Command::GetLdAllocation,
        Command::SetLdAllocation,
        Command::GetQosControl,
        Command::SetQosControl,
        Command::GetQosStatus,
        Command::GetQosBandwidth,
        Command::SetQosBandwidth,
        Command::GetQosBandwidthLimit,
        Command::SetQosBandwidthLimit,
        Command::LdErase,
        Command::GetPpbConfig,
        Command::PpbBind,
        Command::PpbUnbind,
        Command::GetPhysicalPortInfo,
        Command::PhysicalPortControl,
        Command::BindPhysicalPort,
        Command::UnbindPhysicalPort,
        Command::MldPortTunnel,
        Command::MldPortSendConfig,
        Command::MldPortSendMemReq,
        Command::DcdGetInfo,
        Command::DcdGetConfig,
        Command::DcdSetConfig,
        Command::DcdGetExtent,
        Command::DcdAddCapacity,
        Command::DcdReleaseCapacity,
    ]
}

/// The whole vocabulary, each command once.
pub fn all_commands() -> (commands: Vec<Command>)
    ensures
        commands@ == vocabulary(),
{
    let mut commands: Vec<Command> = Vec::new();
    commands.push(Command::DiscoverFm);
    commands.push(Command::DiscoverCxlDevice);
    commands.push(Command::DiscoverCxlSwitch);
    commands.push(Command::DiscoverLd);
    commands.push(Command::GetFmInfo);
    commands.push(Command::StartFm);
    commands.push(Command::RestartFm);
    commands.push(Command::StopFm);
    commands.push(Command::GetFmConfig);
    commands.push(Command::SetFmConfig);
    commands.push(Command::GetFmEvents);
    commands.push(Command::GetSwitchInfo);
    commands.push(Command::GetSwitchConfig);
    commands.push(Command::SetSwitchConfig);
    commands.push(Command::GetMhdInfo);
    commands.push(Command::BindLd);
    commands.push(Command::UnbindLd);
    commands.push(Command::ConnectMld);
    commands.push(Command::DisconnectMld);
    commands.push(Command::GetLdAllocation);
    commands.push(Command::SetLdAllocation);
    commands.push(Command::GetQosControl);
    commands.push(Command::SetQosControl);
    commands.push(Command::GetQosStatus);
    commands.push(Command::GetQosBandwidth);
    commands.push(Command::SetQosBandwidth);
    commands.push(Command::GetQosBandwidthLimit);
    commands.push(Command::SetQosBandwidthLimit);
    commands.push(Command::LdErase);
    commands.push(Command::GetPpbConfig);
    commands.push(Command::PpbBind);
    commands.push(Command::PpbUnbind);
    commands.push(Command::GetPhysicalPortInfo);
    commands.push(Command::PhysicalPortControl);
    commands.push(Command::BindPhysicalPort);
    commands.push(Command::UnbindPhysicalPort);
    commands.push(Command::MldPortTunnel);
    commands.push(Command::MldPortSendConfig);
    commands.push(Command::MldPortSendMemReq);
    commands.push(Command::DcdGetInfo);
    commands.push(Command::DcdGetConfig);
    commands.push(Command::DcdSetConfig);
    commands.push(Command::DcdGetExtent);
    commands.push(Command::DcdAddCapacity);
    commands.push(Command::DcdReleaseCapacity);
    assert(commands@ =~= vocabulary());
    commands
}

/// The vocabulary holds every command.
pub proof fn lemma_vocabulary_complete(command: Command)
    ensures
        vocabulary().contains(command),
{
    let v = vocabulary();
    match command {
        Command::DiscoverFm => assert(v[0] == command),
        Command::DiscoverCxlDevice => assert(v[1] == command),
        Command::DiscoverCxlSwitch => assert(v[2] == command),
        Command::DiscoverLd => assert(v[3] == command),
        Command::GetFmInfo => assert(v[4] == command),
        Command::StartFm => assert(v[5] == command),
        Command::RestartFm => assert(v[6] == command),
        Command::StopFm => assert(v[7] == command),
        Command::GetFmConfig => assert(v[8] == command),
        Command::SetFmConfig => assert(v[9] == command),
        Command::GetFmEvents => assert(v[10] == command),
        Command::GetSwitchInfo => assert(v[11] == command),
        Command::GetSwitchConfig => assert(v[12] == command),
        Command::SetSwitchConfig => assert(v[13] == command),
        Command::GetMhdInfo => assert(v[14] == command),
        Command::BindLd => assert(v[15] == command),
        Command::UnbindLd => assert(v[16] == command),
        Command::ConnectMld => assert(v[17] == command),
        Command::DisconnectMld => assert(v[18] == command),
        Command::GetLdAllocation => assert(v[19] == command),
        Command::SetLdAllocation => assert(v[20] == command),
        Command::GetQosControl => assert(v[21] == command),
        Command::SetQosControl => assert(v[22] == command),
        Command::GetQosStatus => assert(v[23] == command),
        Command::GetQosBandwidth => assert(v[24] == command),
        Command::SetQosBandwidth => assert(v[25] == command),
        Command::GetQosBandwidthLimit => assert(v[26] == command),
        Command::SetQosBandwidthLimit => assert(v[27] == command),
        Command::LdErase => assert(v[28] == command),
        Command::GetPpbConfig => assert(v[29] == command),
        Command::PpbBind => assert(v[30] == command),
        Command::PpbUnbind => assert(v[31] == command),
        Command::GetPhysicalPortInfo => assert(v[32] == command),
        Command::PhysicalPortControl => assert(v[33] == command),
        Command::BindPhysicalPort => assert(v[34] == command),
        Command::UnbindPhysicalPort => assert(v[35] == command),
        Command::MldPortTunnel => assert(v[36] == command),
        Command::MldPortSendConfig => assert(v[37] == command),
        Command::MldPortSendMemReq => assert(v[38] == command),
        Command::DcdGetInfo => assert(v[39] == command),
        Command::DcdGetConfig => assert(v[40] == command),
        Command::DcdSetConfig => assert(v[41] == command),
        Command::DcdGetExtent => assert(v[42] == command),
        Command::DcdAddCapacity => assert(v[43] == command),
        Command::DcdReleaseCapacity => assert(v[44] == command),
    }
}

impl Command {
    /// The place of the command in the vocabulary.
    pub open spec fn ordinal(self) -> int {
        match self {
            Command::DiscoverFm => 0,
            Command::DiscoverCxlDevice => 1,
            Command::DiscoverCxlSwitch => 2,
            Command::DiscoverLd => 3,
            Command::GetFmInfo => 4,
            Command::StartFm => 5,
            Command::RestartFm => 6,
            Command::StopFm => 7,
            Command::GetFmConfig => 8,
            Command::SetFmConfig => 9,
            Command::GetFmEvents => 10,
            Command::GetSwitchInfo => 11,
            Command::GetSwitchConfig => 12,
            Command::SetSwitchConfig => 13,
            Command::GetMhdInfo => 14,
            Command::BindLd => 15,
            Command::UnbindLd => 16,
            Command::ConnectMld => 17,
            Command::DisconnectMld => 18,
            Command::GetLdAllocation => 19,
            Command::SetLdAllocation => 20,
            Command::GetQosControl => 21,
            Command::SetQosControl => 22,
            Command::GetQosStatus => 23,
            Command::GetQosBandwidth => 24,
            Command::SetQosBandwidth => 25,
            Command::GetQosBandwidthLimit => 26,
            Command::SetQosBandwidthLimit => 27,
            Command::LdErase => 28,
            Command::GetPpbConfig => 29,
            Command::PpbBind => 30,
            Command::PpbUnbind => 31,
            Command::GetPhysicalPortInfo => 32,
            Command::PhysicalPortControl => 33,
            Command::BindPhysicalPort => 34,
            Command::UnbindPhysicalPort => 35,
            Command::MldPortTunnel => 36,
            Command::MldPortSendConfig => 37,
            Command::MldPortSendMemReq => 38,
            Command::DcdGetInfo => 39,
            Command::DcdGetConfig => 40,
            Command::DcdSetConfig => 41,
            Command::DcdGetExtent => 42,
            Command::DcdAddCapacity => 43,
            Command::DcdReleaseCapacity => 44,
        }
    }
}

/// Each place of the vocabulary holds the command with that ordinal.
pub proof fn lemma_vocabulary_ordinal(place: int)
    requires
        0 <= place < vocabulary().len(),
    ensures
        vocabulary()[place].ordinal() == place,
{
    let all = vocabulary();
    if place == 0 {
        assert(all[0] == Command::DiscoverFm);
    } else if place == 1 {
        assert(all[1] == Command::DiscoverCxlDevice);
    } else if place == 2 {
        assert(all[2] == Command::DiscoverCxlSwitch);
    } else if place == 3 {
        assert(all[3] == Command::DiscoverLd);
    } else if place == 4 {
        assert(all[4] == Command::GetFmInfo);
    } else if place == 5 {
        assert(all[5] == Command::StartFm);
    } else if place == 6 {
        assert(all[6] == Command::RestartFm);
    } else if place == 7 {
        assert(all[7] == Command::StopFm);
    } else if place == 8 {
        assert(all[8] == Command::GetFmConfig);
    } else if place == 9 {
        assert(all[9] == Command::SetFmConfig);
    } else if place == 10 {
        assert(all[10] == Command::GetFmEvents);
    } else if place == 11 {
        assert(all[11] == Command::GetSwitchInfo);
    } else if place == 12 {
        assert(all[12] == Command::GetSwitchConfig);
    } else if place == 13 {
        assert(all[13] == Command::SetSwitchConfig);
    } else if place == 14 {
        assert(all[14] == Command::GetMhdInfo);
    } else if place == 15 {
        assert(all[15] == Command::BindLd);
    } else if place == 16 {
        assert(all[16] == Command::UnbindLd);
    } else if place == 17 {
        assert(all[17] == Command::ConnectMld);
    } else if place == 18 {
        assert(all[18] == Command::DisconnectMld);
    } else if place == 19 {
        assert(all[19] == Command::GetLdAllocation);
    } else if place == 20 {
        assert(all[20] == Command::SetLdAllocation);
    } else if place == 21 {
        assert(all[21] == Command::GetQosControl);
    } else if place == 22 {
        assert(all[22] == Command::SetQosControl);
    } else if place == 23 {
        assert(all[23] == Command::GetQosStatus);
    } else if place == 24 {
        assert(all[24] == Command::GetQosBandwidth);
    } else if place == 25 {
        assert(all[25] == Command::SetQosBandwidth);
    } else if place == 26 {
        assert(all[26] == Command::GetQosBandwidthLimit);
    } else if place == 27 {
        assert(all[27] == Command::SetQosBandwidthLimit);
    } else if place == 28 {
        assert(all[28] == Command::LdErase);
    } else if place == 29 {
        assert(all[29] == Command::GetPpbConfig);
    } else if place == 30 {
        assert(all[30] == Command::PpbBind);
    } else if place == 31 {
        assert(all[31] == Command::PpbUnbind);
    } else if place == 32 {
        assert(all[32] == Command::GetPhysicalPortInfo);
    } else if place == 33 {
        assert(all[33] == Command::PhysicalPortControl);
    } else if place == 34 {
        assert(all[34] == Command::BindPhysicalPort);
    } else if place == 35 {
        assert(all[35] == Command::UnbindPhysicalPort);
    } else if place == 36 {
        assert(all[36] == Command::MldPortTunnel);
    } else if place == 37 {
        assert(all[37] == Command::MldPortSendConfig);
    } else if place == 38 {
        assert(all[38] == Command::MldPortSendMemReq);
    } else if place == 39 {
        assert(all[39] == Command::DcdGetInfo);
    } else if place == 40 {
        assert(all[40] == Command::DcdGetConfig);
    } else if place == 41 {
        assert(all[41] == Command::DcdSetConfig);
    } else if place == 42 {
        assert(all[42] == Command::DcdGetExtent);
    } else if place == 43 {
        assert(all[43] == Command::DcdAddCapacity);
    } else if place == 44 {
        assert(all[44] == Command::DcdReleaseCapacity);
    }
}

/// The vocabulary holds no command twice.
pub proof fn lemma_vocabulary_no_duplicates()
    ensures
        vocabulary().no_duplicates(),
{
    assert forall|i: int, j: int|
        0 <= i < vocabulary().len() && 0 <= j < vocabulary().len() && i != j implies vocabulary()[i]
        != vocabulary()[j] by {
        lemma_vocabulary_ordinal(i);
        lemma_vocabulary_ordinal(j);
    }
}

/// Spells out the text of every identifier.
proof fn reveal_ids()
    ensures
        CXL_FM_DISCOVER_FM_COMMAND@ == seq!['D', 'I', 'S', 'C', 'O', 'V', 'E', 'R', '_', 'F', 'M'],
        CXL_FM_DISCOVER_CXL_DEVICE_COMMAND@ == seq!['D', 'I', 'S', 'C', 'O', 'V', 'E', 'R', '_', 'C', 'X', 'L', '_', 'D', 'E', 'V', 'I', 'C', 'E'],
        CXL_FM_DISCOVER_CXL_SWITCH_COMMAND@ == seq!['D', 'I', 'S', 'C', 'O', 'V', 'E', 'R', '_', 'C', 'X', 'L', '_', 'S', 'W', 'I', 'T', 'C', 'H'],
        CXL_FM_DISCOVER_LD_COMMAND@ == seq!['D', 'I', 'S', 'C', 'O', 'V', 'E', 'R', '_', 'L', 'O', 'G', 'I', 'C', 'A', 'L', '_', 'D', 'E', 'V', 'I', 'C', 'E'],
        CXL_FM_GET_FM_INFO_COMMAND@ == seq!['G', 'E', 'T', '_', 'F', 'M', '_', 'I', 'N', 'F', 'O'],
        CXL_FM_START_FM_COMMAND@ == seq!['S', 'T', 'A', 'R', 'T', '_', 'F', 'M'],
        CXL_FM_RESTART_FM_COMMAND@ == seq!['R', 'E', 'S', 'T', 'A', 'R', 'T', '_', 'F', 'M'],
        CXL_FM_STOP_FM_COMMAND@ == seq!['S', 'T', 'O', 'P', '_', 'F', 'M'],
        CXL_FM_GET_FM_CONFIG_COMMAND@ == seq!['G', 'E', 'T', '_', 'F', 'M', '_', 'C', 'O', 'N', 'F', 'I', 'G'],
        CXL_FM_SET_FM_CONFIG_COMMAND@ == seq!['S', 'E', 'T', '_', 'F', 'M', '_', 'C', 'O', 'N', 'F', 'I', 'G'],
        CXL_FM_GET_FM_EVENTS_COMMAND@ == seq!['G', 'E', 'T', '_', 'F', 'M', '_', 'E', 'V', 'E', 'N', 'T', 'S'],
        CXL_FM_GET_SWITCH_INFO_COMMAND@ == seq!['G', 'E', 'T', '_', 'S', 'W', 'I', 'T', 'C', 'H', '_', 'I', 'N', 'F', 'O'],
        CXL_FM_GET_SWITCH_CONFIG_COMMAND@ == seq!['G', 'E', 'T', '_', 'S', 'W', 'I', 'T', 'C', 'H', '_', 'C', 'O', 'N', 'F', 'I', 'G'],
        CXL_FM_SET_SWITCH_CONFIG_COMMAND@ == seq!['S', 'E', 'T', '_', 'S', 'W', 'I', 'T', 'C', 'H', '_', 'C', 'O', 'N', 'F', 'I', 'G'],
        CXL_FM_GET_MHD_INFO_COMMAND@ == seq!['G', 'E', 'T', '_', 'M', 'H', 'D', '_', 'I', 'N', 'F', 'O'],
        CXL_FM_BIND_LD_COMMAND@ == seq!['B', 'I', 'N', 'D', '_', 'L', 'O', 'G', 'I', 'C', 'A', 'L', '_', 'D', 'E', 'V', 'I', 'C', 'E'],
        CXL_FM_UNBIND_LD_COMMAND@ == seq!['U', 'N', 'B', 'I', 'N', 'D', '_', 'L', 'O', 'G', 'I', 'C', 'A', 'L', '_', 'D', 'E', 'V', 'I', 'C', 'E'],
        CXL_FM_CONNECT_MLD_COMMAND@ == seq!['C', 'O', 'N', 'N', 'E', 'C', 'T', '_', 'M', 'L', 'D'],
        CXL_FM_DISCONNECT_MLD_COMMAND@ == seq!['D', 'I', 'S', 'C', 'O', 'N', 'N', 'E', 'C', 'T', '_', 'M', 'L', 'D'],
        CXL_FM_GET_LD_ALLOCATION_COMMAND@ == seq!['G', 'E', 'T', '_', 'L', 'D', '_', 'A', 'L', 'L', 'O', 'C', 'A', 'T', 'I', 'O', 'N'],
        CXL_FM_SET_LD_ALLOCATION_COMMAND@ == seq!['S', 'E', 'T', '_', 'L', 'D', '_', 'A', 'L', 'L', 'O', 'C', 'A', 'T', 'I', 'O', 'N'],
        CXL_FM_GET_QOS_CONTROL_COMMAND@ == seq!['G', 'E', 'T', '_', 'L', 'D', '_', 'Q', 'O', 'S', '_', 'C', 'O', 'N', 'T', 'R', 'O', 'L'],
        CXL_FM_SET_QOS_CONTROL_COMMAND@ == seq!['S', 'E', 'T', '_', 'L', 'D', '_', 'Q', 'O', 'S', '_', 'C', 'O', 'N', 'T', 'R', 'O', 'L'],
        CXL_FM_GET_QOS_STATUS_COMMAND@ == seq!['G', 'E', 'T', '_', 'L', 'D', '_', 'Q', 'O', 'S', '_', 'S', 'T', 'A', 'T', 'U', 'S'],
        CXL_FM_GET_QOS_BANDWIDTH_COMMAND@ == seq!['G', 'E', 'T', '_', 'L', 'D', '_', 'Q', 'O', 'S', '_', 'B', 'A', 'N', 'D', 'W', 'I', 'D', 'T', 'H'],
        CXL_FM_SET_QOS_BANDWIDTH_COMMAND@ == seq!['S', 'E', 'T', '_', 'L', 'D', '_', 'Q', 'O', 'S', '_', 'B', 'A', 'N', 'D', 'W', 'I', 'D', 'T', 'H'],
        CXL_FM_GET_QOS_BANDWIDTH_LIMIT_COMMAND@ == seq!['G', 'E', 'T', '_', 'L', 'D', '_', 'Q', 'O', 'S', '_', 'B', 'A', 'N', 'D', 'W', 'I', 'D', 'T', 'H', '_', 'L', 'I', 'M', 'I', 'T'],
        CXL_FM_SET_QOS_BANDWIDTH_LIMIT_COMMAND@ == seq!['S', 'E', 'T', '_', 'L', 'D', '_', 'Q', 'O', 'S', '_', 'B', 'A', 'N', 'D', 'W', 'I', 'D', 'T', 'H', '_', 'L', 'I', 'M', 'I', 'T'],
        CXL_FM_LD_ERASE@ == seq!['L', 'D', '_', 'E', 'R', 'A', 'S', 'E'],
        CXL_FM_GET_PPB_CONFIG_COMMAND@ == seq!['G', 'E', 'T', '_', 'P', 'P', 'B', '_', 'C', 'O', 'N', 'F', 'I', 'G'],
        CXL_FM_PPB_BIND_COMMAND@ == seq!['P', 'P', 'B', '_', 'B', 'I', 'N', 'D'],
        CXL_FM_PPB_UNBIND_COMMAND@ == seq!['P', 'P', 'B', '_', 'U', 'N', 'B', 'I', 'N', 'D'],
        CXL_FM_GET_PHYSICAL_PORT_INFO_COMMAND@ == seq!['G', 'E', 'T', '_', 'P', 'H', 'Y', 'S', 'I', 'C', 'A', 'L', '_', 'P', 'O', 'R', 'T', '_', 'I', 'N', 'F', 'O'],
        CXL_FM_PHYSICAL_PORT_CONTROL_COMMAND@ == seq!['P', 'H', 'Y', 'S', 'I', 'C', 'A', 'L', '_', 'P', 'O', 'R', 'T', '_', 'C', 'O', 'N', 'T', 'R', 'O', 'L'],
        CXL_FM_BIND_PHYSICAL_PORT_COMMAND@ == seq!['B', 'I', 'N', 'D', '_', 'P', 'H', 'Y', 'S', 'I', 'C', 'A', 'L', '_', 'P', 'O', 'R', 'T'],
        CXL_FM_UNBIND_PHYSICAL_PORT_COMMAND@ == seq!['U', 'N', 'B', 'I', 'N', 'D', '_', 'P', 'H', 'Y', 'S', 'I', 'C', 'A', 'L', '_', 'P', 'O', 'R', 'T'],
        CXL_FM_MLD_PORT_TUNNEL_COMMAND@ == seq!['M', 'L', 'D', '_', 'P', 'O', 'R', 'T', '_', 'T', 'U', 'N', 'N', 'E', 'L'],
        CXL_FM_MLD_PORT_SEND_CONFIG_COMMAND@ == seq!['M', 'L', 'D', '_', 'P', 'O', 'R', 'T', '_', 'S', 'E', 'N', 'D', '_', 'C', 'O', 'N', 'F', 'I', 'G'],
        CXL_FM_MLD_PORT_SEND_MEM_REQ_COMMAND@ == seq!['M', 'L', 'D', '_', 'P', 'O', 'R', 'T', '_', 'S', 'E', 'N', 'D', '_', 'M', 'E', 'M', '_', 'R', 'E', 'Q'],
        CXL_FM_DCD_GET_INFO_COMMAND@ == seq!['D', 'C', 'D', '_', 'G', 'E', 'T', '_', 'I', 'N', 'F', 'O'],
        CXL_FM_DCD_GET_CONFIG_COMMAND@ == seq!['D', 'C', 'D', '_', 'G', 'E', 'T', '_', 'C', 'O', 'N', 'F', 'I', 'G'],
        CXL_FM_DCD_SET_CONFIG_COMMAND@ == seq!['D', 'C', 'D', '_', 'S', 'E', 'T', '_', 'C', 'O', 'N', 'F', 'I', 'G'],
        CXL_FM_DCD_GET_EXTENT_COMMAND@ == seq!['D', 'C', 'D', '_', 'G', 'E', 'T', '_', 'E', 'X', 'T', 'E', 'N', 'T'],
        CXL_FM_DCD_ADD_CAPACITY_COMMAND@ == seq!['D', 'C', 'D', '_', 'A', 'D', 'D', '_', 'C', 'A', 'P', 'A', 'C', 'I', 'T', 'Y'],
        CXL_FM_DCD_RELEASE_CAPACITY_COMMAND@ == seq!['D', 'C', 'D', '_', 'R', 'E', 'L', 'E', 'A', 'S', 'E', '_', 'C', 'A', 'P', 'A', 'C', 'I', 'T', 'Y'],
{
    reveal_strlit("DISCOVER_FM");
    reveal_strlit("DISCOVER_CXL_DEVICE");
    reveal_strlit("DISCOVER_CXL_SWITCH");
    reveal_strlit("DISCOVER_LOGICAL_DEVICE");
    reveal_strlit("GET_FM_INFO");
    reveal_strlit("START_FM");
    reveal_strlit("RESTART_FM");
    reveal_strlit("STOP_FM");
    reveal_strlit("GET_FM_CONFIG");
    reveal_strlit("SET_FM_CONFIG");
    reveal_strlit("GET_FM_EVENTS");
    reveal_strlit("GET_SWITCH_INFO");
    reveal_strlit("GET_SWITCH_CONFIG");
    reveal_strlit("SET_SWITCH_CONFIG");
    reveal_strlit("GET_MHD_INFO");
    reveal_strlit("BIND_LOGICAL_DEVICE");
    reveal_strlit("UNBIND_LOGICAL_DEVICE");
    reveal_strlit("CONNECT_MLD");
    reveal_strlit("DISCONNECT_MLD");
    reveal_strlit("GET_LD_ALLOCATION");
    reveal_strlit("SET_LD_ALLOCATION");
    reveal_strlit("GET_LD_QOS_CONTROL");
    reveal_strlit("SET_LD_QOS_CONTROL");
    reveal_strlit("GET_LD_QOS_STATUS");
    reveal_strlit("GET_LD_QOS_BANDWIDTH");
    reveal_strlit("SET_LD_QOS_BANDWIDTH");
    reveal_strlit("GET_LD_QOS_BANDWIDTH_LIMIT");
    reveal_strlit("SET_LD_QOS_BANDWIDTH_LIMIT");
    reveal_strlit("LD_ERASE");
    reveal_strlit("GET_PPB_CONFIG");
    reveal_strlit("PPB_BIND");
    reveal_strlit("PPB_UNBIND");
    reveal_strlit("GET_PHYSICAL_PORT_INFO");
    reveal_strlit("PHYSICAL_PORT_CONTROL");
    reveal_strlit("BIND_PHYSICAL_PORT");
    reveal_strlit("UNBIND_PHYSICAL_PORT");
    reveal_strlit("MLD_PORT_TUNNEL");
    reveal_strlit("MLD_PORT_SEND_CONFIG");
    reveal_strlit("MLD_PORT_SEND_MEM_REQ");
    reveal_strlit("DCD_GET_INFO");
    reveal_strlit("DCD_GET_CONFIG");
    reveal_strlit("DCD_SET_CONFIG");
    reveal_strlit("DCD_GET_EXTENT");
    reveal_strlit("DCD_ADD_CAPACITY");
    reveal_strlit("DCD_RELEASE_CAPACITY");
    assert(CXL_FM_DISCOVER_FM_COMMAND@ =~= seq!['D', 'I', 'S', 'C', 'O', 'V', 'E', 'R', '_', 'F', 'M']);
    assert(CXL_FM_DISCOVER_CXL_DEVICE_COMMAND@ =~= seq!['D', 'I', 'S', 'C', 'O', 'V', 'E', 'R', '_', 'C', 'X', 'L', '_', 'D', 'E', 'V', 'I', 'C', 'E']);
    assert(CXL_FM_DISCOVER_CXL_SWITCH_COMMAND@ =~= seq!['D', 'I', 'S', 'C', 'O', 'V', 'E', 'R', '_', 'C', 'X', 'L', '_', 'S', 'W', 'I', 'T', 'C', 'H']);
    assert(CXL_FM_DISCOVER_LD_COMMAND@ =~= seq!['D', 'I', 'S', 'C', 'O', 'V', 'E', 'R', '_', 'L', 'O', 'G', 'I', 'C', 'A', 'L', '_', 'D', 'E', 'V', 'I', 'C', 'E']);
    assert(CXL_FM_GET_FM_INFO_COMMAND@ =~= seq!['G', 'E', 'T', '_', 'F', 'M', '_', 'I', 'N', 'F', 'O']);
    assert(CXL_FM_START_FM_COMMAND@ =~= seq!['S', 'T', 'A', 'R', 'T', '_', 'F', 'M']);
    assert(CXL_FM_RESTART_FM_COMMAND@ =~= seq!['R', 'E', 'S', 'T', 'A', 'R', 'T', '_', 'F', 'M']);
    assert(CXL_FM_STOP_FM_COMMAND@ =~= seq!['S', 'T', 'O', 'P', '_', 'F', 'M']);
    assert(CXL_FM_GET_FM_CONFIG_COMMAND@ =~= seq!['G', 'E', 'T', '_', 'F', 'M', '_', 'C', 'O', 'N', 'F', 'I', 'G']);
    assert(CXL_FM_SET_FM_CONFIG_COMMAND@ =~= seq!['S', 'E', 'T', '_', 'F', 'M', '_', 'C', 'O', 'N', 'F', 'I', 'G']);
    assert(CXL_FM_GET_FM_EVENTS_COMMAND@ =~= seq!['G', 'E', 'T', '_', 'F', 'M', '_', 'E', 'V', 'E', 'N', 'T', 'S']);
    assert(CXL_FM_GET_SWITCH_INFO_COMMAND@ =~= seq!['G', 'E', 'T', '_', 'S', 'W', 'I', 'T', 'C', 'H', '_', 'I', 'N', 'F', 'O']);
    assert(CXL_FM_GET_SWITCH_CONFIG_COMMAND@ =~= seq!['G', 'E', 'T', '_', 'S', 'W', 'I', 'T', 'C', 'H', '_', 'C', 'O', 'N', 'F', 'I', 'G']);
    assert(CXL_FM_SET_SWITCH_CONFIG_COMMAND@ =~= seq!['S', 'E', 'T', '_', 'S', 'W', 'I', 'T', 'C', 'H', '_', 'C', 'O', 'N', 'F', 'I', 'G']);
    assert(CXL_FM_GET_MHD_INFO_COMMAND@ =~= seq!['G', 'E', 'T', '_', 'M', 'H', 'D', '_', 'I', 'N', 'F', 'O']);
    assert(CXL_FM_BIND_LD_COMMAND@ =~= seq!['B', 'I', 'N', 'D', '_', 'L', 'O', 'G', 'I', 'C', 'A', 'L', '_', 'D', 'E', 'V', 'I', 'C', 'E']);
    assert(CXL_FM_UNBIND_LD_COMMAND@ =~= seq!['U', 'N', 'B', 'I', 'N', 'D', '_', 'L', 'O', 'G', 'I', 'C', 'A', 'L', '_', 'D', 'E', 'V', 'I', 'C', 'E']);
    assert(CXL_FM_CONNECT_MLD_COMMAND@ =~= seq!['C', 'O', 'N', 'N', 'E', 'C', 'T', '_', 'M', 'L', 'D']);
    assert(CXL_FM_DISCONNECT_MLD_COMMAND@ =~= seq!['D', 'I', 'S', 'C', 'O', 'N', 'N', 'E', 'C', 'T', '_', 'M', 'L', 'D']);
    assert(CXL_FM_GET_LD_ALLOCATION_COMMAND@ =~= seq!['G', 'E', 'T', '_', 'L', 'D', '_', 'A', 'L', 'L', 'O', 'C', 'A', 'T', 'I', 'O', 'N']);
    assert(CXL_FM_SET_LD_ALLOCATION_COMMAND@ =~= seq!['S', 'E', 'T', '_', 'L', 'D', '_', 'A', 'L', 'L', 'O', 'C', 'A', 'T', 'I', 'O', 'N']);
    assert(CXL_FM_GET_QOS_CONTROL_COMMAND@ =~= seq!['G', 'E', 'T', '_', 'L', 'D', '_', 'Q', 'O', 'S', '_', 'C', 'O', 'N', 'T', 'R', 'O', 'L']);
    assert(CXL_FM_SET_QOS_CONTROL_COMMAND@ =~= seq!['S', 'E', 'T', '_', 'L', 'D', '_', 'Q', 'O', 'S', '_', 'C', 'O', 'N', 'T', 'R', 'O', 'L']);
    assert(CXL_FM_GET_QOS_STATUS_COMMAND@ =~= seq!['G', 'E', 'T', '_', 'L', 'D', '_', 'Q', 'O', 'S', '_', 'S', 'T', 'A', 'T', 'U', 'S']);
    assert(CXL_FM_GET_QOS_BANDWIDTH_COMMAND@ =~= seq!['G', 'E', 'T', '_', 'L', 'D', '_', 'Q', 'O', 'S', '_', 'B', 'A', 'N', 'D', 'W', 'I', 'D', 'T', 'H']);
    assert(CXL_FM_SET_QOS_BANDWIDTH_COMMAND@ =~= seq!['S', 'E', 'T', '_', 'L', 'D', '_', 'Q', 'O', 'S', '_', 'B', 'A', 'N', 'D', 'W', 'I', 'D', 'T', 'H']);
    assert(CXL_FM_GET_QOS_BANDWIDTH_LIMIT_COMMAND@ =~= seq!['G', 'E', 'T', '_', 'L', 'D', '_', 'Q', 'O', 'S', '_', 'B', 'A', 'N', 'D', 'W', 'I', 'D', 'T', 'H', '_', 'L', 'I', 'M', 'I', 'T']);
    assert(CXL_FM_SET_QOS_BANDWIDTH_LIMIT_COMMAND@ =~= seq!['S', 'E', 'T', '_', 'L', 'D', '_', 'Q', 'O', 'S', '_', 'B', 'A', 'N', 'D', 'W', 'I', 'D', 'T', 'H', '_', 'L', 'I', 'M', 'I', 'T']);
    assert(CXL_FM_LD_ERASE@ =~= seq!['L', 'D', '_', 'E', 'R', 'A', 'S', 'E']);
    assert(CXL_FM_GET_PPB_CONFIG_COMMAND@ =~= seq!['G', 'E', 'T', '_', 'P', 'P', 'B', '_', 'C', 'O', 'N', 'F', 'I', 'G']);
    assert(CXL_FM_PPB_BIND_COMMAND@ =~= seq!['P', 'P', 'B', '_', 'B', 'I', 'N', 'D']);
    assert(CXL_FM_PPB_UNBIND_COMMAND@ =~= seq!['P', 'P', 'B', '_', 'U', 'N', 'B', 'I', 'N', 'D']);
    assert(CXL_FM_GET_PHYSICAL_PORT_INFO_COMMAND@ =~= seq!['G', 'E', 'T', '_', 'P', 'H', 'Y', 'S', 'I', 'C', 'A', 'L', '_', 'P', 'O', 'R', 'T', '_', 'I', 'N', 'F', 'O']);
    assert(CXL_FM_PHYSICAL_PORT_CONTROL_COMMAND@ =~= seq!['P', 'H', 'Y', 'S', 'I', 'C', 'A', 'L', '_', 'P', 'O', 'R', 'T', '_', 'C', 'O', 'N', 'T', 'R', 'O', 'L']);
    assert(CXL_FM_BIND_PHYSICAL_PORT_COMMAND@ =~= seq!['B', 'I', 'N', 'D', '_', 'P', 'H', 'Y', 'S', 'I', 'C', 'A', 'L', '_', 'P', 'O', 'R', 'T']);
    assert(CXL_FM_UNBIND_PHYSICAL_PORT_COMMAND@ =~= seq!['U', 'N', 'B', 'I', 'N', 'D', '_', 'P', 'H', 'Y', 'S', 'I', 'C', 'A', 'L', '_', 'P', 'O', 'R', 'T']);
    assert(CXL_FM_MLD_PORT_TUNNEL_COMMAND@ =~= seq!['M', 'L', 'D', '_', 'P', 'O', 'R', 'T', '_', 'T', 'U', 'N', 'N', 'E', 'L']);
    assert(CXL_FM_MLD_PORT_SEND_CONFIG_COMMAND@ =~= seq!['M', 'L', 'D', '_', 'P', 'O', 'R', 'T', '_', 'S', 'E', 'N', 'D', '_', 'C', 'O', 'N', 'F', 'I', 'G']);
    assert(CXL_FM_MLD_PORT_SEND_MEM_REQ_COMMAND@ =~= seq!['M', 'L', 'D', '_', 'P', 'O', 'R', 'T', '_', 'S', 'E', 'N', 'D', '_', 'M', 'E', 'M', '_', 'R', 'E', 'Q']);
    assert(CXL_FM_DCD_GET_INFO_COMMAND@ =~= seq!['D', 'C', 'D', '_', 'G', 'E', 'T', '_', 'I', 'N', 'F', 'O']);
    assert(CXL_FM_DCD_GET_CONFIG_COMMAND@ =~= seq!['D', 'C', 'D', '_', 'G', 'E', 'T', '_', 'C', 'O', 'N', 'F', 'I', 'G']);
    assert(CXL_FM_DCD_SET_CONFIG_COMMAND@ =~= seq!['D', 'C', 'D', '_', 'S', 'E', 'T', '_', 'C', 'O', 'N', 'F', 'I', 'G']);
    assert(CXL_FM_DCD_GET_EXTENT_COMMAND@ =~= seq!['D', 'C', 'D', '_', 'G', 'E', 'T', '_', 'E', 'X', 'T', 'E', 'N', 'T']);
    assert(CXL_FM_DCD_ADD_CAPACITY_COMMAND@ =~= seq!['D', 'C', 'D', '_', 'A', 'D', 'D', '_', 'C', 'A', 'P', 'A', 'C', 'I', 'T', 'Y']);
    assert(CXL_FM_DCD_RELEASE_CAPACITY_COMMAND@ =~= seq!['D', 'C', 'D', '_', 'R', 'E', 'L', 'E', 'A', 'S', 'E', '_', 'C', 'A', 'P', 'A', 'C', 'I', 'T', 'Y']);
}

/// Every identifier of the vocabulary can travel as a line: it is not
/// empty and holds no line terminator.
pub proof fn lemma_ids_are_command_ids(command: Command)
    ensures
        is_command_id(command.id_spec()),
{
    reveal_ids();
}

/// The character of `text` at `position`, or a blank past its end.
pub open spec fn char_at(text: Seq<char>, position: int) -> char {
    if position < text.len() {
        text[position]
    } else {
        ' '
    }
}

/// A short key of a text: its length and the characters at four positions.
/// Texts with different keys differ.
spec fn fingerprint(text: Seq<char>) -> (nat, char, char, char, char) {
    (text.len(), char_at(text, 0), char_at(text, 4), char_at(text, 7), char_at(text, 13))
}

/// The key of each identifier of the vocabulary.
spec fn fingerprint_of(command: Command) -> (nat, char, char, char, char) {
    match command {
        Command::DiscoverFm => (11, 'D', 'O', 'R', ' '),
        Command::DiscoverCxlDevice => (19, 'D', 'O', 'R', 'D'),
        Command::DiscoverCxlSwitch => (19, 'D', 'O', 'R', 'S'),
        Command::DiscoverLd => (23, 'D', 'O', 'R', 'C'),
        Command::GetFmInfo => (11, 'G', 'F', 'I', ' '),
        Command::StartFm => (8, 'S', 'T', 'M', ' '),
        Command::RestartFm => (10, 'R', 'A', '_', ' '),
        Command::StopFm => (7, 'S', '_', ' ', ' '),
        Command::GetFmConfig => (13, 'G', 'F', 'C', ' '),
        Command::SetFmConfig => (13, 'S', 'F', 'C', ' '),
        Command::GetFmEvents => (13, 'G', 'F', 'E', ' '),
        Command::GetSwitchInfo => (15, 'G', 'S', 'T', 'F'),
        Command::GetSwitchConfig => (17, 'G', 'S', 'T', 'N'),
        Command::SetSwitchConfig => (17, 'S', 'S', 'T', 'N'),
        Command::GetMhdInfo => (12, 'G', 'M', '_', ' '),
        Command::BindLd => (19, 'B', '_', 'G', 'D'),
        Command::UnbindLd => (21, 'U', 'N', 'L', 'L'),
        Command::ConnectMld => (11, 'C', 'E', '_', ' '),
        Command::DisconnectMld => (14, 'D', 'O', 'E', 'D'),
        Command::GetLdAllocation => (17, 'G', 'L', 'A', 'T'),
        Command::SetLdAllocation => (17, 'S', 'L', 'A', 'T'),
        Command::GetQosControl => (18, 'G', 'L', 'Q', 'N'),
        Command::SetQosControl => (18, 'S', 'L', 'Q', 'N'),
        Command::GetQosStatus => (17, 'G', 'L', 'Q', 'A'),
        Command::GetQosBandwidth => (20, 'G', 'L', 'Q', 'N'),
        Command::SetQosBandwidth => (20, 'S', 'L', 'Q', 'N'),
        Command::GetQosBandwidthLimit => (26, 'G', 'L', 'Q', 'N'),
        Command::SetQosBandwidthLimit => (26, 'S', 'L', 'Q', 'N'),
        Command::LdErase => (8, 'L', 'R', 'E', ' '),
        Command::GetPpbConfig => (14, 'G', 'P', '_', 'G'),
        Command::PpbBind => (8, 'P', 'B', 'D', ' '),
        Command::PpbUnbind => (10, 'P', 'U', 'I', ' '),
        Command::GetPhysicalPortInfo => (22, 'G', 'P', 'S', 'P'),
        Command::PhysicalPortControl => (21, 'P', 'I', 'L', '_'),
        Command::BindPhysicalPort => (18, 'B', '_', 'Y', '_'),
        Command::UnbindPhysicalPort => (20, 'U', 'N', 'P', 'A'),
        Command::MldPortTunnel => (15, 'M', 'P', 'T', 'E'),
        Command::MldPortSendConfig => (20, 'M', 'P', 'T', '_'),
        Command::MldPortSendMemReq => (21, 'M', 'P', 'T', '_'),
        Command::DcdGetInfo => (12, 'D', 'G', '_', ' '),
        Command::DcdGetConfig => (14, 'D', 'G', '_', 'G'),
        Command::DcdSetConfig => (14, 'D', 'S', '_', 'G'),
        Command::DcdGetExtent => (14, 'D', 'G', '_', 'T'),
        Command::DcdAddCapacity => (16, 'D', 'A', '_', 'I'),
        Command::DcdReleaseCapacity => (20, 'D', 'R', 'E', 'A'),
    }
}

proof fn lemma_fingerprint(command: Command)
    ensures
        fingerprint(command.id_spec()) == fingerprint_of(command),
{
    reveal_ids();
    match command {
        Command::DiscoverFm => assert(fingerprint(CXL_FM_DISCOVER_FM_COMMAND@) == fingerprint_of(command)),
        Command::DiscoverCxlDevice => assert(fingerprint(CXL_FM_DISCOVER_CXL_DEVICE_COMMAND@) == fingerprint_of(command)),
        Command::DiscoverCxlSwitch => assert(fingerprint(CXL_FM_DISCOVER_CXL_SWITCH_COMMAND@) == fingerprint_of(command)),
        Command::DiscoverLd => assert(fingerprint(CXL_FM_DISCOVER_LD_COMMAND@) == fingerprint_of(command)),
        Command::GetFmInfo => assert(fingerprint(CXL_FM_GET_FM_INFO_COMMAND@) == fingerprint_of(command)),
        Command::StartFm => assert(fingerprint(CXL_FM_START_FM_COMMAND@) == fingerprint_of(command)),
        Command::RestartFm => assert(fingerprint(CXL_FM_RESTART_FM_COMMAND@) == fingerprint_of(command)),
        Command::StopFm => assert(fingerprint(CXL_FM_STOP_FM_COMMAND@) == fingerprint_of(command)),
        Command::GetFmConfig => assert(fingerprint(CXL_FM_GET_FM_CONFIG_COMMAND@) == fingerprint_of(command)),
        Command::SetFmConfig => assert(fingerprint(CXL_FM_SET_FM_CONFIG_COMMAND@) == fingerprint_of(command)),
        Command::GetFmEvents => assert(fingerprint(CXL_FM_GET_FM_EVENTS_COMMAND@) == fingerprint_of(command)),
        Command::GetSwitchInfo => assert(fingerprint(CXL_FM_GET_SWITCH_INFO_COMMAND@) == fingerprint_of(command)),
        Command::GetSwitchConfig => assert(fingerprint(CXL_FM_GET_SWITCH_CONFIG_COMMAND@) == fingerprint_of(command)),
        Command::SetSwitchConfig => assert(fingerprint(CXL_FM_SET_SWITCH_CONFIG_COMMAND@) == fingerprint_of(command)),
        Command::GetMhdInfo => assert(fingerprint(CXL_FM_GET_MHD_INFO_COMMAND@) == fingerprint_of(command)),
        Command::BindLd => assert(fingerprint(CXL_FM_BIND_LD_COMMAND@) == fingerprint_of(command)),
        Command::UnbindLd => assert(fingerprint(CXL_FM_UNBIND_LD_COMMAND@) == fingerprint_of(command)),
        Command::ConnectMld => assert(fingerprint(CXL_FM_CONNECT_MLD_COMMAND@) == fingerprint_of(command)),
        Command::DisconnectMld => assert(fingerprint(CXL_FM_DISCONNECT_MLD_COMMAND@) == fingerprint_of(command)),
        Command::GetLdAllocation => assert(fingerprint(CXL_FM_GET_LD_ALLOCATION_COMMAND@) == fingerprint_of(command)),
        Command::SetLdAllocation => assert(fingerprint(CXL_FM_SET_LD_ALLOCATION_COMMAND@) == fingerprint_of(command)),
        Command::GetQosControl => assert(fingerprint(CXL_FM_GET_QOS_CONTROL_COMMAND@) == fingerprint_of(command)),
        Command::SetQosControl => assert(fingerprint(CXL_FM_SET_QOS_CONTROL_COMMAND@) == fingerprint_of(command)),
        Command::GetQosStatus => assert(fingerprint(CXL_FM_GET_QOS_STATUS_COMMAND@) == fingerprint_of(command)),
        Command::GetQosBandwidth => assert(fingerprint(CXL_FM_GET_QOS_BANDWIDTH_COMMAND@) == fingerprint_of(command)),
        Command::SetQosBandwidth => assert(fingerprint(CXL_FM_SET_QOS_BANDWIDTH_COMMAND@) == fingerprint_of(command)),
        Command::GetQosBandwidthLimit => assert(fingerprint(CXL_FM_GET_QOS_BANDWIDTH_LIMIT_COMMAND@) == fingerprint_of(command)),
        Command::SetQosBandwidthLimit => assert(fingerprint(CXL_FM_SET_QOS_BANDWIDTH_LIMIT_COMMAND@) == fingerprint_of(command)),
        Command::LdErase => assert(fingerprint(CXL_FM_LD_ERASE@) == fingerprint_of(command)),
        Command::GetPpbConfig => assert(fingerprint(CXL_FM_GET_PPB_CONFIG_COMMAND@) == fingerprint_of(command)),
        Command::PpbBind => assert(fingerprint(CXL_FM_PPB_BIND_COMMAND@) == fingerprint_of(command)),
        Command::PpbUnbind => assert(fingerprint(CXL_FM_PPB_UNBIND_COMMAND@) == fingerprint_of(command)),
        Command::GetPhysicalPortInfo => assert(fingerprint(CXL_FM_GET_PHYSICAL_PORT_INFO_COMMAND@) == fingerprint_of(command)),
        Command::PhysicalPortControl => assert(fingerprint(CXL_FM_PHYSICAL_PORT_CONTROL_COMMAND@) == fingerprint_of(command)),
        Command::BindPhysicalPort => assert(fingerprint(CXL_FM_BIND_PHYSICAL_PORT_COMMAND@) == fingerprint_of(command)),
        Command::UnbindPhysicalPort => assert(fingerprint(CXL_FM_UNBIND_PHYSICAL_PORT_COMMAND@) == fingerprint_of(command)),
        Command::MldPortTunnel => assert(fingerprint(CXL_FM_MLD_PORT_TUNNEL_COMMAND@) == fingerprint_of(command)),
        Command::MldPortSendConfig => assert(fingerprint(CXL_FM_MLD_PORT_SEND_CONFIG_COMMAND@) == fingerprint_of(command)),
        Command::MldPortSendMemReq => assert(fingerprint(CXL_FM_MLD_PORT_SEND_MEM_REQ_COMMAND@) == fingerprint_of(command)),
        Command::DcdGetInfo => assert(fingerprint(CXL_FM_DCD_GET_INFO_COMMAND@) == fingerprint_of(command)),
        Command::DcdGetConfig => assert(fingerprint(CXL_FM_DCD_GET_CONFIG_COMMAND@) == fingerprint_of(command)),
        Command::DcdSetConfig => assert(fingerprint(CXL_FM_DCD_SET_CONFIG_COMMAND@) == fingerprint_of(command)),
        Command::DcdGetExtent => assert(fingerprint(CXL_FM_DCD_GET_EXTENT_COMMAND@) == fingerprint_of(command)),
        Command::DcdAddCapacity => assert(fingerprint(CXL_FM_DCD_ADD_CAPACITY_COMMAND@) == fingerprint_of(command)),
        Command::DcdReleaseCapacity => assert(fingerprint(CXL_FM_DCD_RELEASE_CAPACITY_COMMAND@) == fingerprint_of(command)),
    }
}

/// No two commands of the vocabulary share an identifier.
pub proof fn lemma_ids_distinct(a: Command, b: Command)
    ensures
        a.id_spec() == b.id_spec() ==> a == b,
{
    lemma_fingerprint(a);
    lemma_fingerprint(b);
}

/// Neither service response is the identifier of a command.
pub proof fn law_responses_are_not_commands(command: Command)
    ensures
        command.id_spec() != CXL_FM_NO_DATA@,
        command.id_spec() != CXL_FM_UNKNOWN_COMMAND@,
{
    reveal_ids();
    reveal_strlit("NO_DATA");
    reveal_strlit("UNKNOWN_COMMAND");
}

} // verus!
