//! The control plane's description of a container.
//!
//! A manifest in canonical form decodes directly into a [`Container`]; the
//! control plane reports the containers it runs in the same shape.

use vstd::prelude::*;

verus! {

/// The image a container is made from.
#[derive(Debug, PartialEq, Eq)]
pub struct Image {
    pub name: String,
}

pub struct ImageView {
    pub name: Seq<char>,
}

impl View for Image {
    type V = ImageView;

    open spec fn view(&self) -> ImageView {
        ImageView { name: self.name@ }
    }
}

/// A host directory made visible inside the container.
#[derive(Debug, PartialEq, Eq)]
pub struct MountPoint {
    pub destination: String,
    pub source: String,
    pub propagation_mode: String,
}

pub struct MountPointView {
    pub destination: Seq<char>,
    pub source: Seq<char>,
    pub propagation_mode: Seq<char>,
}

impl View for MountPoint {
    type V = MountPointView;

    open spec fn view(&self) -> MountPointView {
        MountPointView {
            destination: self.destination@,
            source: self.source@,
            propagation_mode: self.propagation_mode@,
        }
    }
}

/// A host device made visible inside the container.
#[derive(Debug, PartialEq, Eq)]
pub struct DeviceMapping {
    pub path_on_host: String,
    pub path_in_container: String,
    pub cgroup_permissions: String,
}

pub struct DeviceMappingView {
    pub path_on_host: Seq<char>,
    pub path_in_container: Seq<char>,
    pub cgroup_permissions: Seq<char>,
}

impl View for DeviceMapping {
    type V = DeviceMappingView;

    open spec fn view(&self) -> DeviceMappingView {
        DeviceMappingView {
            path_on_host: self.path_on_host@,
            path_in_container: self.path_in_container@,
            cgroup_permissions: self.cgroup_permissions@,
        }
    }
}

/// A container port published on the host.
#[derive(Debug, PartialEq, Eq)]
pub struct PortMapping {
    pub protocol: String,
    pub container_port: i64,
    pub host_ip: String,
    pub host_port: i64,
    pub host_port_end: i64,
}

pub struct PortMappingView {
    pub protocol: Seq<char>,
    pub container_port: i64,
    pub host_ip: Seq<char>,
    pub host_port: i64,
    pub host_port_end: i64,
}

impl View for PortMapping {
    type V = PortMappingView;

    open spec fn view(&self) -> PortMappingView {
        PortMappingView {
            protocol: self.protocol@,
            container_port: self.container_port,
            host_ip: self.host_ip@,
            host_port: self.host_port,
            host_port_end: self.host_port_end,
        }
    }
}

/// How the host runs the container.
#[derive(Debug, PartialEq, Eq)]
pub struct HostConfig {
    pub devices: Vec<DeviceMapping>,
    pub network_mode: String,
    pub privileged: bool,
    pub port_mappings: Vec<PortMapping>,
}

pub struct HostConfigView {
    pub devices: Seq<DeviceMappingView>,
    pub network_mode: Seq<char>,
    pub privileged: bool,
    pub port_mappings: Seq<PortMappingView>,
}

impl View for HostConfig {
    type V = HostConfigView;

    open spec fn view(&self) -> HostConfigView {
        HostConfigView {
            devices: Seq::new(self.devices.len() as nat, |i: int| self.devices[i]@),
            network_mode: self.network_mode@,
            privileged: self.privileged,
            port_mappings: Seq::new(
                self.port_mappings.len() as nat,
                |i: int| self.port_mappings[i]@,
            ),
        }
    }
}

/// What runs inside the container.
#[derive(Debug, PartialEq, Eq)]
pub struct ContainerConfiguration {
    pub env: Vec<String>,
    pub cmd: Vec<String>,
}

pub struct ContainerConfigurationView {
    pub env: Seq<Seq<char>>,
    pub cmd: Seq<Seq<char>>,
}

/// The texts of a list of strings.
pub open spec fn texts(strings: Seq<String>) -> Seq<Seq<char>> {
    Seq::new(strings.len(), |i: int| strings[i]@)
}

impl View for ContainerConfiguration {
    type V = ContainerConfigurationView;

    open spec fn view(&self) -> ContainerConfigurationView {
        ContainerConfigurationView { env: texts(self.env@), cmd: texts(self.cmd@) }
    }
}

/// What the control plane reports of a container's life.
#[derive(Debug, PartialEq, Eq)]
pub struct State {
    pub running: bool,
    pub status: String,
    pub exit_code: i64,
}

pub struct StateView {
    pub running: bool,
    pub status: Seq<char>,
    pub exit_code: i64,
}

impl View for State {
    type V = StateView;

    open spec fn view(&self) -> StateView {
        StateView { running: self.running, status: self.status@, exit_code: self.exit_code }
    }
}

/// A container as the control plane describes it. The name is the key by
/// which a desired container finds the deployed one.
#[derive(Debug, PartialEq, Eq)]
pub struct Container {
    pub id: String,
    pub name: String,
    pub image: Option<Image>,
    pub host_name: String,
    pub domain_name: String,
    pub mounts: Vec<MountPoint>,
    pub config: Option<ContainerConfiguration>,
    pub host_config: Option<HostConfig>,
    pub state: Option<State>,
}

pub struct ContainerView {
    pub id: Seq<char>,
    pub name: Seq<char>,
    pub image: Option<ImageView>,
    pub host_name: Seq<char>,
    pub domain_name: Seq<char>,
    pub mounts: Seq<MountPointView>,
    pub config: Option<ContainerConfigurationView>,
    pub host_config: Option<HostConfigView>,
    pub state: Option<StateView>,
}

impl View for Container {
    type V = ContainerView;

    open spec fn view(&self) -> ContainerView {
        ContainerView {
            id: self.id@,
            name: self.name@,
            image: match self.image {
                Some(image) => Some(image@),
                None => None,
            },
            host_name: self.host_name@,
            domain_name: self.domain_name@,
            mounts: Seq::new(self.mounts.len() as nat, |i: int| self.mounts[i]@),
            config: match self.config {
                Some(config) => Some(config@),
                None => None,
            },
            host_config: match self.host_config {
                Some(host_config) => Some(host_config@),
                None => None,
            },
            state: match self.state {
                Some(state) => Some(state@),
                None => None,
            },
        }
    }
}

/// The views of a list of containers.
pub open spec fn containers_view(containers: Seq<Container>) -> Seq<ContainerView> {
    Seq::new(containers.len(), |i: int| containers[i]@)
}

/// Whether the control plane reports the container as running. A container
/// without a reported state does not run.
pub open spec fn is_running(container: ContainerView) -> bool {
    match container.state {
        Some(state) => state.running,
        None => false,
    }
}

/// Whether the control plane reports the container as running.
pub fn container_running(c: &Container) -> (running: bool)
    ensures
        running == is_running(c@),
{
    if let Some(state) = &c.state {
        return state.running;
    }
    false
}

} // verus!
