//! Writing containers as documents in canonical shape.
//!
//! What is written reads back as the container it was written from.

use crate::canonical::{
    decode_configuration, decode_container, decode_device, decode_devices, decode_host_config,
    decode_image, decode_mount_point, decode_mount_points, decode_port_mapping,
    decode_port_mappings, decode_state, decode_texts, view_seq,
};
use crate::container::{
    texts, Container, ContainerConfiguration, ContainerConfigurationView, ContainerView,
    DeviceMapping, DeviceMappingView, HostConfig, HostConfigView, Image, ImageView, MountPoint,
    MountPointView, PortMapping, PortMappingView, State, StateView,
};
use crate::json::{items_view, lemma_position_is, members_view, Json, JsonValue};
use crate::manifest_parser::{normalized, ManifestErrorView};
use crate::number::{decimal_text, lemma_decimal_text, write_i64};
use vstd::prelude::*;

verus! {

/// The documents that write the items of a list, each by `encode`.
pub open spec fn encode_list<V>(items: Seq<V>, encode: spec_fn(V) -> JsonValue) -> Seq<JsonValue> {
    Seq::new(items.len(), |i: int| encode(items[i]))
}

/// The documents that write a list of texts.
pub open spec fn encode_texts(items: Seq<Seq<char>>) -> Seq<JsonValue> {
    Seq::new(items.len(), |i: int| JsonValue::Text(items[i]))
}

/// The document that writes an optional description: `null` where there is
/// none.
pub open spec fn encode_optional(nested: Option<JsonValue>) -> JsonValue {
    match nested {
        Some(value) => value,
        None => JsonValue::Null,
    }
}

pub open spec fn encode_image(image: ImageView) -> JsonValue {
    JsonValue::Object(seq![("name"@, JsonValue::Text(image.name))])
}

pub open spec fn encode_mount_point(mount: MountPointView) -> JsonValue {
    JsonValue::Object(
        seq![
            ("destination"@, JsonValue::Text(mount.destination)),
            ("source"@, JsonValue::Text(mount.source)),
            ("propagation_mode"@, JsonValue::Text(mount.propagation_mode)),
        ],
    )
}

pub open spec fn encode_device(device: DeviceMappingView) -> JsonValue {
    JsonValue::Object(
        seq![
            ("path_on_host"@, JsonValue::Text(device.path_on_host)),
            ("path_in_container"@, JsonValue::Text(device.path_in_container)),
            ("cgroup_permissions"@, JsonValue::Text(device.cgroup_permissions)),
        ],
    )
}

pub open spec fn encode_port_mapping(mapping: PortMappingView) -> JsonValue {
    JsonValue::Object(
        seq![
            ("protocol"@, JsonValue::Text(mapping.protocol)),
            ("container_port"@, JsonValue::Number(decimal_text(mapping.container_port as int))),
            ("host_ip"@, JsonValue::Text(mapping.host_ip)),
            ("host_port"@, JsonValue::Number(decimal_text(mapping.host_port as int))),
            ("host_port_end"@, JsonValue::Number(decimal_text(mapping.host_port_end as int))),
        ],
    )
}

pub open spec fn encode_host_config(config: HostConfigView) -> JsonValue {
    JsonValue::Object(
        seq![
            (
                "devices"@,
                JsonValue::Array(
                    encode_list(config.devices, |d: DeviceMappingView| encode_device(d)),
                ),
            ),
            ("network_mode"@, JsonValue::Text(config.network_mode)),
            ("privileged"@, JsonValue::Bool(config.privileged)),
            (
                "port_mappings"@,
                JsonValue::Array(
                    encode_list(config.port_mappings, |m: PortMappingView| encode_port_mapping(m)),
                ),
            ),
        ],
    )
}

pub open spec fn encode_configuration(config: ContainerConfigurationView) -> JsonValue {
    JsonValue::Object(
        seq![
            ("env"@, JsonValue::Array(encode_texts(config.env))),
            ("cmd"@, JsonValue::Array(encode_texts(config.cmd))),
        ],
    )
}

pub open spec fn encode_state(state: StateView) -> JsonValue {
    JsonValue::Object(
        seq![
            ("running"@, JsonValue::Bool(state.running)),
            ("status"@, JsonValue::Text(state.status)),
            ("exit_code"@, JsonValue::Number(decimal_text(state.exit_code as int))),
        ],
    )
}

/// The document in canonical shape that writes a container.
pub open spec fn encode_container(container: ContainerView) -> JsonValue {
    JsonValue::Object(
        seq![
            ("id"@, JsonValue::Text(container.id)),
            ("name"@, JsonValue::Text(container.name)),
            (
                "image"@,
                encode_optional(
                    match container.image {
                        Some(image) => Some(encode_image(image)),
                        None => None,
                    },
                ),
            ),
            ("host_name"@, JsonValue::Text(container.host_name)),
            ("domain_name"@, JsonValue::Text(container.domain_name)),
            (
                "mounts"@,
                JsonValue::Array(
                    encode_list(container.mounts, |m: MountPointView| encode_mount_point(m)),
                ),
            ),
            (
                "host_config"@,
                encode_optional(
                    match container.host_config {
                        Some(host_config) => Some(encode_host_config(host_config)),
                        None => None,
                    },
                ),
            ),
            (
                "config"@,
                encode_optional(
                    match container.config {
                        Some(config) => Some(encode_configuration(config)),
                        None => None,
                    },
                ),
            ),
            (
                "state"@,
                encode_optional(
                    match container.state {
                        Some(state) => Some(encode_state(state)),
                        None => None,
                    },
                ),
            ),
        ],
    )
}

/// An image reads back from what writes it.
pub proof fn lemma_image_round_trip(image: ImageView)
    ensures
        decode_image(encode_image(image)) == Some(image),
{
}

/// A mount point reads back from what writes it.
pub proof fn lemma_mount_point_round_trip(mount: MountPointView)
    ensures
        decode_mount_point(encode_mount_point(mount)) == Some(mount),
{
    reveal_strlit("destination");
    reveal_strlit("source");
    reveal_strlit("propagation_mode");
    assert("destination"@.len() == 11 && "destination"@[0] == 'd');
    assert("source"@.len() == 6 && "source"@[0] == 's');
    let members = encode_mount_point(mount)->Object_0;
    lemma_position_is(members, "source"@, 1);
    lemma_position_is(members, "propagation_mode"@, 2);
}

/// A device mapping reads back from what writes it.
pub proof fn lemma_device_round_trip(device: DeviceMappingView)
    ensures
        decode_device(encode_device(device)) == Some(device),
{
    reveal_strlit("path_on_host");
    reveal_strlit("path_in_container");
    reveal_strlit("cgroup_permissions");
    assert("path_on_host"@.len() == 12 && "path_on_host"@[0] == 'p');
    assert("path_in_container"@.len() == 17 && "path_in_container"@[0] == 'p');
    let members = encode_device(device)->Object_0;
    lemma_position_is(members, "path_in_container"@, 1);
    lemma_position_is(members, "cgroup_permissions"@, 2);
}

/// A port mapping reads back from what writes it.
pub proof fn lemma_port_mapping_round_trip(mapping: PortMappingView)
    ensures
        decode_port_mapping(encode_port_mapping(mapping)) == Some(mapping),
{
    reveal_strlit("protocol");
    reveal_strlit("container_port");
    reveal_strlit("host_ip");
    reveal_strlit("host_port");
    reveal_strlit("host_port_end");
    assert("protocol"@.len() == 8 && "protocol"@[0] == 'p');
    assert("container_port"@.len() == 14 && "container_port"@[0] == 'c');
    assert("host_ip"@.len() == 7 && "host_ip"@[0] == 'h');
    assert("host_port"@.len() == 9 && "host_port"@[0] == 'h');
    let members = encode_port_mapping(mapping)->Object_0;
    lemma_position_is(members, "container_port"@, 1);
    lemma_position_is(members, "host_ip"@, 2);
    lemma_position_is(members, "host_port"@, 3);
    lemma_position_is(members, "host_port_end"@, 4);
    lemma_decimal_text(mapping.container_port as int);
    lemma_decimal_text(mapping.host_port as int);
    lemma_decimal_text(mapping.host_port_end as int);
}

/// A list of texts reads back from what writes it.
pub proof fn lemma_texts_round_trip(items: Seq<Seq<char>>)
    ensures
        decode_texts(encode_texts(items)) == Some(items),
    decreases items.len(),
{
    if items.len() > 0 {
        lemma_texts_round_trip(items.drop_last());
        assert(encode_texts(items).drop_last() =~= encode_texts(items.drop_last()));
    }
}

/// A list of mount points reads back from what writes it.
pub proof fn lemma_mount_points_round_trip(items: Seq<MountPointView>)
    ensures
        decode_mount_points(encode_list(items, |m: MountPointView| encode_mount_point(m)))
            == Some(items),
    decreases items.len(),
{
    if items.len() > 0 {
        lemma_mount_points_round_trip(items.drop_last());
        lemma_mount_point_round_trip(items.last());
        assert(encode_list(items, |m: MountPointView| encode_mount_point(m)).drop_last()
            =~= encode_list(items.drop_last(), |m: MountPointView| encode_mount_point(m)));
    }
}

/// A list of device mappings reads back from what writes it.
pub proof fn lemma_devices_round_trip(items: Seq<DeviceMappingView>)
    ensures
        decode_devices(encode_list(items, |d: DeviceMappingView| encode_device(d))) == Some(items),
    decreases items.len(),
{
    if items.len() > 0 {
        lemma_devices_round_trip(items.drop_last());
        lemma_device_round_trip(items.last());
        assert(encode_list(items, |d: DeviceMappingView| encode_device(d)).drop_last()
            =~= encode_list(items.drop_last(), |d: DeviceMappingView| encode_device(d)));
    }
}

/// A list of port mappings reads back from what writes it.
pub proof fn lemma_port_mappings_round_trip(items: Seq<PortMappingView>)
    ensures
        decode_port_mappings(encode_list(items, |m: PortMappingView| encode_port_mapping(m)))
            == Some(items),
    decreases items.len(),
{
    if items.len() > 0 {
        lemma_port_mappings_round_trip(items.drop_last());
        lemma_port_mapping_round_trip(items.last());
        assert(encode_list(items, |m: PortMappingView| encode_port_mapping(m)).drop_last()
            =~= encode_list(items.drop_last(), |m: PortMappingView| encode_port_mapping(m)));
    }
}

/// A host configuration reads back from what writes it.
pub proof fn lemma_host_config_round_trip(config: HostConfigView)
    ensures
        decode_host_config(encode_host_config(config)) == Some(config),
{
    reveal_strlit("devices");
    reveal_strlit("network_mode");
    reveal_strlit("privileged");
    reveal_strlit("port_mappings");
    assert("devices"@.len() == 7 && "devices"@[0] == 'd');
    assert("network_mode"@.len() == 12 && "network_mode"@[0] == 'n');
    assert("privileged"@.len() == 10 && "privileged"@[0] == 'p');
    let members = encode_host_config(config)->Object_0;
    lemma_position_is(members, "network_mode"@, 1);
    lemma_position_is(members, "privileged"@, 2);
    lemma_position_is(members, "port_mappings"@, 3);
    lemma_devices_round_trip(config.devices);
    lemma_port_mappings_round_trip(config.port_mappings);
}

/// A container configuration reads back from what writes it.
pub proof fn lemma_configuration_round_trip(config: ContainerConfigurationView)
    ensures
        decode_configuration(encode_configuration(config)) == Some(config),
{
    reveal_strlit("env");
    reveal_strlit("cmd");
    assert("env"@.len() == 3 && "env"@[0] == 'e');
    let members = encode_configuration(config)->Object_0;
    lemma_position_is(members, "cmd"@, 1);
    lemma_texts_round_trip(config.env);
    lemma_texts_round_trip(config.cmd);
}

/// A state reads back from what writes it.
pub proof fn lemma_state_round_trip(state: StateView)
    ensures
        decode_state(encode_state(state)) == Some(state),
{
    reveal_strlit("running");
    reveal_strlit("status");
    reveal_strlit("exit_code");
    assert("running"@.len() == 7 && "running"@[0] == 'r');
    assert("status"@.len() == 6 && "status"@[0] == 's');
    let members = encode_state(state)->Object_0;
    lemma_position_is(members, "status"@, 1);
    lemma_position_is(members, "exit_code"@, 2);
    lemma_decimal_text(state.exit_code as int);
}

/// A container reads back from what writes it.
pub proof fn lemma_container_round_trip(container: ContainerView)
    ensures
        decode_container(encode_container(container)) == Some(container),
{
    reveal_strlit("id");
    reveal_strlit("name");
    reveal_strlit("image");
    reveal_strlit("host_name");
    reveal_strlit("domain_name");
    reveal_strlit("mounts");
    reveal_strlit("host_config");
    reveal_strlit("config");
    reveal_strlit("state");
    assert("id"@.len() == 2 && "id"@[0] == 'i');
    assert("name"@.len() == 4 && "name"@[0] == 'n');
    assert("image"@.len() == 5 && "image"@[0] == 'i');
    assert("host_name"@.len() == 9 && "host_name"@[0] == 'h');
    assert("domain_name"@.len() == 11 && "domain_name"@[0] == 'd');
    assert("mounts"@.len() == 6 && "mounts"@[0] == 'm');
    assert("host_config"@.len() == 11 && "host_config"@[0] == 'h');
    assert("config"@.len() == 6 && "config"@[0] == 'c');
    let members = encode_container(container)->Object_0;
    lemma_position_is(members, "name"@, 1);
    lemma_position_is(members, "image"@, 2);
    lemma_position_is(members, "host_name"@, 3);
    lemma_position_is(members, "domain_name"@, 4);
    lemma_position_is(members, "mounts"@, 5);
    lemma_position_is(members, "host_config"@, 6);
    lemma_position_is(members, "config"@, 7);
    lemma_position_is(members, "state"@, 8);
    lemma_mount_points_round_trip(container.mounts);
    if container.image is Some {
        lemma_image_round_trip(container.image->Some_0);
    }
    if container.host_config is Some {
        lemma_host_config_round_trip(container.host_config->Some_0);
    }
    if container.config is Some {
        lemma_configuration_round_trip(container.config->Some_0);
    }
    if container.state is Some {
        lemma_state_round_trip(container.state->Some_0);
    }
}

/// A manifest in canonical shape is read as the container that it writes:
/// reading is the inverse of writing.
pub proof fn law_round_trip(container: ContainerView)
    ensures
        normalized(encode_container(container)) == Ok::<ContainerView, ManifestErrorView>(
            container,
        ),
{
    lemma_container_round_trip(container);
}

fn text(value: &String) -> (json: Json)
    ensures
        json@ == JsonValue::Text(value@),
{
    Json::Text(value.clone())
}

fn number(value: i64) -> (json: Json)
    ensures
        json@ == JsonValue::Number(decimal_text(value as int)),
{
    Json::Number(write_i64(value))
}

fn array(items: Vec<Json>) -> (json: Json)
    ensures
        json@ == JsonValue::Array(items_view(items@)),
{
    proof {
        Json::lemma_array_view(items);
    }
    Json::Array(items)
}

fn object(members: Vec<(String, Json)>) -> (json: Json)
    ensures
        json@ == JsonValue::Object(members_view(members@)),
{
    proof {
        Json::lemma_object_view(members);
    }
    Json::Object(members)
}

fn texts_to_json(items: &Vec<String>) -> (json: Json)
    ensures
        json@ == JsonValue::Array(encode_texts(texts(items@))),
{
    let mut written: Vec<Json> = Vec::new();
    let mut i: usize = 0;
    while i < items.len()
        invariant
            i <= items.len(),
            written.len() == i,
            forall|j: int| 0 <= j < i ==> (#[trigger] written[j])@ == JsonValue::Text(items[j]@),
        decreases items.len() - i,
    {
        written.push(text(&items[i]));
        i += 1;
    }
    assert(items_view(written@) =~= encode_texts(texts(items@)));
    array(written)
}

impl Image {
    /// Writes the image as a document in canonical shape.
    pub fn to_json(&self) -> (json: Json)
        ensures
            json@ == encode_image(self@),
    {
        let mut members: Vec<(String, Json)> = Vec::new();
        members.push(("name".to_owned(), text(&self.name)));
        assert(members_view(members@) =~= encode_image(self@)->Object_0);
        object(members)
    }
}

impl MountPoint {
    /// Writes the mount point as a document in canonical shape.
    pub fn to_json(&self) -> (json: Json)
        ensures
            json@ == encode_mount_point(self@),
    {
        let mut members: Vec<(String, Json)> = Vec::new();
        members.push(("destination".to_owned(), text(&self.destination)));
        members.push(("source".to_owned(), text(&self.source)));
        members.push(("propagation_mode".to_owned(), text(&self.propagation_mode)));
        assert(members_view(members@) =~= encode_mount_point(self@)->Object_0);
        object(members)
    }

    /// Writes a list of mount points.
    pub fn list_to_json(items: &Vec<MountPoint>) -> (json: Json)
        ensures
            json@ == JsonValue::Array(
                encode_list(view_seq(items@), |m: MountPointView| encode_mount_point(m)),
            ),
    {
        let mut written: Vec<Json> = Vec::new();
        let mut i: usize = 0;
        while i < items.len()
            invariant
                i <= items.len(),
                written.len() == i,
                forall|j: int|
                    0 <= j < i ==> (#[trigger] written[j])@ == encode_mount_point(items[j]@),
            decreases items.len() - i,
        {
            written.push(items[i].to_json());
            i += 1;
        }
        assert(items_view(written@) =~= encode_list(
            view_seq(items@),
            |m: MountPointView| encode_mount_point(m),
        ));
        array(written)
    }
}

impl DeviceMapping {
    /// Writes the device mapping as a document in canonical shape.
    pub fn to_json(&self) -> (json: Json)
        ensures
            json@ == encode_device(self@),
    {
        let mut members: Vec<(String, Json)> = Vec::new();
        members.push(("path_on_host".to_owned(), text(&self.path_on_host)));
        members.push(("path_in_container".to_owned(), text(&self.path_in_container)));
        members.push(("cgroup_permissions".to_owned(), text(&self.cgroup_permissions)));
        assert(members_view(members@) =~= encode_device(self@)->Object_0);
        object(members)
    }

    /// Writes a list of device mappings.
    pub fn list_to_json(items: &Vec<DeviceMapping>) -> (json: Json)
        ensures
            json@ == JsonValue::Array(
                encode_list(view_seq(items@), |d: DeviceMappingView| encode_device(d)),
            ),
    {
        let mut written: Vec<Json> = Vec::new();
        let mut i: usize = 0;
        while i < items.len()
            invariant
                i <= items.len(),
                written.len() == i,
                forall|j: int| 0 <= j < i ==> (#[trigger] written[j])@ == encode_device(items[j]@),
            decreases items.len() - i,
        {
            written.push(items[i].to_json());
            i += 1;
        }
        assert(items_view(written@) =~= encode_list(
            view_seq(items@),
            |d: DeviceMappingView| encode_device(d),
        ));
        array(written)
    }
}

impl PortMapping {
    /// Writes the port mapping as a document in canonical shape.
    pub fn to_json(&self) -> (json: Json)
        ensures
            json@ == encode_port_mapping(self@),
    {
        let mut members: Vec<(String, Json)> = Vec::new();
        members.push(("protocol".to_owned(), text(&self.protocol)));
        members.push(("container_port".to_owned(), number(self.container_port)));
        members.push(("host_ip".to_owned(), text(&self.host_ip)));
        members.push(("host_port".to_owned(), number(self.host_port)));
        members.push(("host_port_end".to_owned(), number(self.host_port_end)));
        assert(members_view(members@) =~= encode_port_mapping(self@)->Object_0);
        object(members)
    }

    /// Writes a list of port mappings.
    pub fn list_to_json(items: &Vec<PortMapping>) -> (json: Json)
        ensures
            json@ == JsonValue::Array(
                encode_list(view_seq(items@), |m: PortMappingView| encode_port_mapping(m)),
            ),
    {
        let mut written: Vec<Json> = Vec::new();
        let mut i: usize = 0;
        while i < items.len()
            invariant
                i <= items.len(),
                written.len() == i,
                forall|j: int|
                    0 <= j < i ==> (#[trigger] written[j])@ == encode_port_mapping(items[j]@),
            decreases items.len() - i,
        {
            written.push(items[i].to_json());
            i += 1;
        }
        assert(items_view(written@) =~= encode_list(
            view_seq(items@),
            |m: PortMappingView| encode_port_mapping(m),
        ));
        array(written)
    }
}

impl HostConfig {
    /// Writes the host configuration as a document in canonical shape.
    pub fn to_json(&self) -> (json: Json)
        ensures
            json@ == encode_host_config(self@),
    {
        let mut members: Vec<(String, Json)> = Vec::new();
        members.push(("devices".to_owned(), DeviceMapping::list_to_json(&self.devices)));
        members.push(("network_mode".to_owned(), text(&self.network_mode)));
        members.push(("privileged".to_owned(), Json::Bool(self.privileged)));
        members.push(("port_mappings".to_owned(), PortMapping::list_to_json(&self.port_mappings)));
        assert(members_view(members@) =~= encode_host_config(self@)->Object_0);
        object(members)
    }
}

impl ContainerConfiguration {
    /// Writes the container configuration as a document in canonical shape.
    pub fn to_json(&self) -> (json: Json)
        ensures
            json@ == encode_configuration(self@),
    {
        let mut members: Vec<(String, Json)> = Vec::new();
        members.push(("env".to_owned(), texts_to_json(&self.env)));
        members.push(("cmd".to_owned(), texts_to_json(&self.cmd)));
        assert(members_view(members@) =~= encode_configuration(self@)->Object_0);
        object(members)
    }
}

impl State {
    /// Writes the state as a document in canonical shape.
    pub fn to_json(&self) -> (json: Json)
        ensures
            json@ == encode_state(self@),
    {
        let mut members: Vec<(String, Json)> = Vec::new();
        members.push(("running".to_owned(), Json::Bool(self.running)));
        members.push(("status".to_owned(), text(&self.status)));
        members.push(("exit_code".to_owned(), number(self.exit_code)));
        assert(members_view(members@) =~= encode_state(self@)->Object_0);
        object(members)
    }
}

impl Container {
    /// Writes the container as a document in canonical shape.
    pub fn to_json(&self) -> (json: Json)
        ensures
            json@ == encode_container(self@),
    {
        let image = match &self.image {
            Some(image) => image.to_json(),
            None => Json::Null,
        };
        let host_config = match &self.host_config {
            Some(host_config) => host_config.to_json(),
            None => Json::Null,
        };
        let config = match &self.config {
            Some(config) => config.to_json(),
            None => Json::Null,
        };
        let state = match &self.state {
            Some(state) => state.to_json(),
            None => Json::Null,
        };
        let mut members: Vec<(String, Json)> = Vec::new();
        members.push(("id".to_owned(), text(&self.id)));
        members.push(("name".to_owned(), text(&self.name)));
        members.push(("image".to_owned(), image));
        members.push(("host_name".to_owned(), text(&self.host_name)));
        members.push(("domain_name".to_owned(), text(&self.domain_name)));
        members.push(("mounts".to_owned(), MountPoint::list_to_json(&self.mounts)));
        members.push(("host_config".to_owned(), host_config));
        members.push(("config".to_owned(), config));
        members.push(("state".to_owned(), state));
        assert(members_view(members@) =~= encode_container(self@)->Object_0);
        object(members)
    }
}

} // verus!
