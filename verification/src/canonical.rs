//! The canonical shape of a container description: which JSON documents
//! are one, and the container each of them describes.
//!
//! A member that holds text, a flag, a number or a list must be there and
//! hold that. A member that holds a nested description may be missing or
//! `null`, and then the container has none. Members that the shape does not
//! name are passed over.

use crate::container::{
    Container, ContainerConfiguration, ContainerConfigurationView, ContainerView, DeviceMapping,
    DeviceMappingView, HostConfig, HostConfigView, Image, ImageView, MountPoint, MountPointView,
    PortMapping, PortMappingView, State, StateView,
};
use crate::json::{lookup, Json, JsonValue};
use crate::number::{i64_of, parse_i64};
use vstd::prelude::*;

verus! {

/// The view of an optional value.
pub open spec fn view_opt<T: View>(value: Option<T>) -> Option<T::V> {
    match value {
        Some(value) => Some(value@),
        None => None,
    }
}

/// The views of a list of values.
pub open spec fn view_seq<T: View>(values: Seq<T>) -> Seq<T::V> {
    Seq::new(values.len(), |i: int| values[i]@)
}

/// The members of an object, the empty list for every other document.
pub open spec fn members_of(value: JsonValue) -> Seq<(Seq<char>, JsonValue)> {
    match value {
        JsonValue::Object(members) => members,
        _ => Seq::empty(),
    }
}

/// The text that the object holds under the key.
pub open spec fn text_at(value: JsonValue, key: Seq<char>) -> Option<Seq<char>> {
    match lookup(members_of(value), key) {
        Some(JsonValue::Text(text)) => Some(text),
        _ => None,
    }
}

/// The flag that the object holds under the key.
pub open spec fn flag_at(value: JsonValue, key: Seq<char>) -> Option<bool> {
    match lookup(members_of(value), key) {
        Some(JsonValue::Bool(flag)) => Some(flag),
        _ => None,
    }
}

/// The signed 64-bit integer that the object holds under the key.
pub open spec fn integer_at(value: JsonValue, key: Seq<char>) -> Option<i64> {
    match lookup(members_of(value), key) {
        Some(JsonValue::Number(literal)) => i64_of(literal),
        _ => None,
    }
}

/// The items of the list that the object holds under the key.
pub open spec fn items_at(value: JsonValue, key: Seq<char>) -> Option<Seq<JsonValue>> {
    match lookup(members_of(value), key) {
        Some(JsonValue::Array(items)) => Some(items),
        _ => None,
    }
}

/// The nested description that the object holds under the key: `None` where
/// the key is missing or holds `null`.
pub open spec fn nested_at(value: JsonValue, key: Seq<char>) -> Option<JsonValue> {
    match lookup(members_of(value), key) {
        Some(JsonValue::Null) => None,
        other => other,
    }
}

/// The texts of a list whose items are all texts.
pub open spec fn decode_texts(items: Seq<JsonValue>) -> Option<Seq<Seq<char>>>
    decreases items.len(),
{
    if items.len() == 0 {
        Some(Seq::empty())
    } else {
        match (decode_texts(items.drop_last()), items.last()) {
            (Some(front), JsonValue::Text(text)) => Some(front.push(text)),
            _ => None,
        }
    }
}

/// The texts of the list that the object holds under the key.
pub open spec fn texts_at(value: JsonValue, key: Seq<char>) -> Option<Seq<Seq<char>>> {
    match items_at(value, key) {
        Some(items) => decode_texts(items),
        None => None,
    }
}

pub open spec fn decode_image(value: JsonValue) -> Option<ImageView> {
    match text_at(value, "name"@) {
        Some(name) => Some(ImageView { name }),
        None => None,
    }
}

pub open spec fn decode_mount_point(value: JsonValue) -> Option<MountPointView> {
    match (
        text_at(value, "destination"@),
        text_at(value, "source"@),
        text_at(value, "propagation_mode"@),
    ) {
        (Some(destination), Some(source), Some(propagation_mode)) => Some(
            MountPointView { destination, source, propagation_mode },
        ),
        _ => None,
    }
}

pub open spec fn decode_mount_points(items: Seq<JsonValue>) -> Option<Seq<MountPointView>>
    decreases items.len(),
{
    if items.len() == 0 {
        Some(Seq::empty())
    } else {
        match (decode_mount_points(items.drop_last()), decode_mount_point(items.last())) {
            (Some(front), Some(last)) => Some(front.push(last)),
            _ => None,
        }
    }
}

pub open spec fn decode_device(value: JsonValue) -> Option<DeviceMappingView> {
    match (
        text_at(value, "path_on_host"@),
        text_at(value, "path_in_container"@),
        text_at(value, "cgroup_permissions"@),
    ) {
        (Some(path_on_host), Some(path_in_container), Some(cgroup_permissions)) => Some(
            DeviceMappingView { path_on_host, path_in_container, cgroup_permissions },
        ),
        _ => None,
    }
}

pub open spec fn decode_devices(items: Seq<JsonValue>) -> Option<Seq<DeviceMappingView>>
    decreases items.len(),
{
    if items.len() == 0 {
        Some(Seq::empty())
    } else {
        match (decode_devices(items.drop_last()), decode_device(items.last())) {
            (Some(front), Some(last)) => Some(front.push(last)),
            _ => None,
        }
    }
}

pub open spec fn decode_port_mapping(value: JsonValue) -> Option<PortMappingView> {
    match (
        text_at(value, "protocol"@),
        integer_at(value, "container_port"@),
        text_at(value, "host_ip"@),
        integer_at(value, "host_port"@),
        integer_at(value, "host_port_end"@),
    ) {
        (
            Some(protocol),
            Some(container_port),
            Some(host_ip),
            Some(host_port),
            Some(host_port_end),
        ) => Some(
            PortMappingView { protocol, container_port, host_ip, host_port, host_port_end },
        ),
        _ => None,
    }
}

pub open spec fn decode_port_mappings(items: Seq<JsonValue>) -> Option<Seq<PortMappingView>>
    decreases items.len(),
{
    if items.len() == 0 {
        Some(Seq::empty())
    } else {
        match (decode_port_mappings(items.drop_last()), decode_port_mapping(items.last())) {
            (Some(front), Some(last)) => Some(front.push(last)),
            _ => None,
        }
    }
}

pub open spec fn decode_host_config(value: JsonValue) -> Option<HostConfigView> {
    match (
        items_at(value, "devices"@),
        text_at(value, "network_mode"@),
        flag_at(value, "privileged"@),
        items_at(value, "port_mappings"@),
    ) {
        (Some(devices), Some(network_mode), Some(privileged), Some(port_mappings)) => match (
            decode_devices(devices),
            decode_port_mappings(port_mappings),
        ) {
            (Some(devices), Some(port_mappings)) => Some(
                HostConfigView { devices, network_mode, privileged, port_mappings },
            ),
            _ => None,
        },
        _ => None,
    }
}

pub open spec fn decode_configuration(value: JsonValue) -> Option<ContainerConfigurationView> {
    match (texts_at(value, "env"@), texts_at(value, "cmd"@)) {
        (Some(env), Some(cmd)) => Some(ContainerConfigurationView { env, cmd }),
        _ => None,
    }
}

pub open spec fn decode_state(value: JsonValue) -> Option<StateView> {
    match (flag_at(value, "running"@), text_at(value, "status"@), integer_at(value, "exit_code"@)) {
        (Some(running), Some(status), Some(exit_code)) => Some(
            StateView { running, status, exit_code },
        ),
        _ => None,
    }
}

/// The nested description that the object may hold under the key, read by
/// `decode`: `Some(None)` where the key is missing or holds `null`, `None`
/// where what it holds is out of shape.
pub open spec fn decode_nested<V>(
    value: JsonValue,
    key: Seq<char>,
    decode: spec_fn(JsonValue) -> Option<V>,
) -> Option<Option<V>> {
    match nested_at(value, key) {
        None => Some(None),
        Some(nested) => match decode(nested) {
            Some(decoded) => Some(Some(decoded)),
            None => None,
        },
    }
}

/// The container that a document in canonical shape describes, `None` for a
/// document of any other shape.
pub open spec fn decode_container(value: JsonValue) -> Option<ContainerView> {
    match (
        text_at(value, "id"@),
        text_at(value, "name"@),
        decode_nested(value, "image"@, |v: JsonValue| decode_image(v)),
        text_at(value, "host_name"@),
        text_at(value, "domain_name"@),
        items_at(value, "mounts"@),
        decode_nested(value, "config"@, |v: JsonValue| decode_configuration(v)),
        decode_nested(value, "host_config"@, |v: JsonValue| decode_host_config(v)),
        decode_nested(value, "state"@, |v: JsonValue| decode_state(v)),
    ) {
        (
            Some(id),
            Some(name),
            Some(image),
            Some(host_name),
            Some(domain_name),
            Some(mounts),
            Some(config),
            Some(host_config),
            Some(state),
        ) => match decode_mount_points(mounts) {
            Some(mounts) => Some(
                ContainerView {
                    id,
                    name,
                    image,
                    host_name,
                    domain_name,
                    mounts,
                    config,
                    host_config,
                    state,
                },
            ),
            None => None,
        },
        _ => None,
    }
}

/// The text that the object holds under the key.
fn text_field(json: &Json, key: &str) -> (text: Option<String>)
    ensures
        view_opt(text) == text_at(json@, key@),
{
    match json.get(key) {
        Some(Json::Text(text)) => Some(text.clone()),
        _ => None,
    }
}

/// The flag that the object holds under the key.
fn flag_field(json: &Json, key: &str) -> (flag: Option<bool>)
    ensures
        flag == flag_at(json@, key@),
{
    match json.get(key) {
        Some(Json::Bool(flag)) => Some(*flag),
        _ => None,
    }
}

/// The signed 64-bit integer that the object holds under the key.
fn integer_field(json: &Json, key: &str) -> (integer: Option<i64>)
    ensures
        integer == integer_at(json@, key@),
{
    match json.get(key) {
        Some(Json::Number(literal)) => parse_i64(literal.as_str()),
        _ => None,
    }
}

/// The items of the list that the object holds under the key.
fn items_field<'a>(json: &'a Json, key: &str) -> (items: Option<&'a Vec<Json>>)
    ensures
        items.is_some() == items_at(json@, key@).is_some(),
        items matches Some(list) ==> items_at(json@, key@) == Some(
            crate::json::items_view(list@),
        ),
{
    match json.get(key) {
        Some(Json::Array(items)) => Some(items),
        _ => None,
    }
}

/// The nested description that the object holds under the key.
fn nested_field<'a>(json: &'a Json, key: &str) -> (nested: Option<&'a Json>)
    ensures
        view_opt(nested) == nested_at(json@, key@),
{
    match json.get(key) {
        Some(Json::Null) => None,
        other => other,
    }
}

/// The texts of the list that the object holds under the key.
fn texts_field(json: &Json, key: &str) -> (texts: Option<Vec<String>>)
    ensures
        view_opt(texts).is_some() == texts_at(json@, key@).is_some(),
        texts matches Some(list) ==> texts_at(json@, key@) == Some(crate::container::texts(list@)),
{
    let items = match items_field(json, key) {
        Some(items) => items,
        None => {
            return None;
        },
    };
    let ghost all = crate::json::items_view(items@);
    let mut texts: Vec<String> = Vec::new();
    let mut i: usize = 0;
    while i < items.len()
        invariant
            i <= items.len(),
            all == crate::json::items_view(items@),
            decode_texts(all.take(i as int)) == Some(crate::container::texts(texts@)),
            texts_at(json@, key@) == decode_texts(all),
        decreases items.len() - i,
    {
        assert(all.take(i + 1).drop_last() =~= all.take(i as int));
        match &items[i] {
            Json::Text(text) => {
                texts.push(text.clone());
            },
            _ => {
                proof {
                    lemma_decode_texts_fails(all, i as int);
                }
                return None;
            },
        }
        i += 1;
    }
    assert(all.take(i as int) =~= all);
    Some(texts)
}

/// A list with an item that is no text has no texts.
pub proof fn lemma_decode_texts_fails(items: Seq<JsonValue>, at: int)
    requires
        0 <= at < items.len(),
        !(items[at] is Text),
    ensures
        decode_texts(items) is None,
    decreases items.len(),
{
    if at < items.len() - 1 {
        lemma_decode_texts_fails(items.drop_last(), at);
    }
}

/// A list with an item that is no mount point has no mount points.
pub proof fn lemma_decode_mount_points_fails(items: Seq<JsonValue>, at: int)
    requires
        0 <= at < items.len(),
        decode_mount_point(items[at]) is None,
    ensures
        decode_mount_points(items) is None,
    decreases items.len(),
{
    if at < items.len() - 1 {
        lemma_decode_mount_points_fails(items.drop_last(), at);
    }
}

/// A list with an item that is no device has no devices.
pub proof fn lemma_decode_devices_fails(items: Seq<JsonValue>, at: int)
    requires
        0 <= at < items.len(),
        decode_device(items[at]) is None,
    ensures
        decode_devices(items) is None,
    decreases items.len(),
{
    if at < items.len() - 1 {
        lemma_decode_devices_fails(items.drop_last(), at);
    }
}

/// A list with an item that is no port mapping has no port mappings.
pub proof fn lemma_decode_port_mappings_fails(items: Seq<JsonValue>, at: int)
    requires
        0 <= at < items.len(),
        decode_port_mapping(items[at]) is None,
    ensures
        decode_port_mappings(items) is None,
    decreases items.len(),
{
    if at < items.len() - 1 {
        lemma_decode_port_mappings_fails(items.drop_last(), at);
    }
}

impl Image {
    /// Reads an image from a document in canonical shape.
    pub fn from_json(json: &Json) -> (image: Option<Image>)
        ensures
            view_opt(image) == decode_image(json@),
    {
        match text_field(json, "name") {
            Some(name) => Some(Image { name }),
            None => None,
        }
    }
}

impl MountPoint {
    /// Reads a mount point from a document in canonical shape.
    pub fn from_json(json: &Json) -> (mount: Option<MountPoint>)
        ensures
            view_opt(mount) == decode_mount_point(json@),
    {
        let destination = text_field(json, "destination");
        let source = text_field(json, "source");
        let propagation_mode = text_field(json, "propagation_mode");
        match (destination, source, propagation_mode) {
            (Some(destination), Some(source), Some(propagation_mode)) => Some(
                MountPoint { destination, source, propagation_mode },
            ),
            _ => None,
        }
    }

    /// Reads a list of mount points.
    pub fn list_from_json(items: &Vec<Json>) -> (mounts: Option<Vec<MountPoint>>)
        ensures
            mounts.is_some() == decode_mount_points(crate::json::items_view(items@)).is_some(),
            mounts matches Some(list) ==> decode_mount_points(crate::json::items_view(items@))
                == Some(view_seq(list@)),
    {
        let ghost all = crate::json::items_view(items@);
        let mut mounts: Vec<MountPoint> = Vec::new();
        let mut i: usize = 0;
        while i < items.len()
            invariant
                i <= items.len(),
                all == crate::json::items_view(items@),
                decode_mount_points(all.take(i as int)) == Some(view_seq(mounts@)),
            decreases items.len() - i,
        {
            assert(all.take(i + 1).drop_last() =~= all.take(i as int));
            match MountPoint::from_json(&items[i]) {
                Some(mount) => {
                    mounts.push(mount);
                },
                None => {
                    proof {
                        lemma_decode_mount_points_fails(all, i as int);
                    }
                    return None;
                },
            }
            i += 1;
        }
        assert(all.take(i as int) =~= all);
        Some(mounts)
    }
}

impl DeviceMapping {
    /// Reads a device mapping from a document in canonical shape.
    pub fn from_json(json: &Json) -> (device: Option<DeviceMapping>)
        ensures
            view_opt(device) == decode_device(json@),
    {
        let path_on_host = text_field(json, "path_on_host");
        let path_in_container = text_field(json, "path_in_container");
        let cgroup_permissions = text_field(json, "cgroup_permissions");
        match (path_on_host, path_in_container, cgroup_permissions) {
            (Some(path_on_host), Some(path_in_container), Some(cgroup_permissions)) => Some(
                DeviceMapping { path_on_host, path_in_container, cgroup_permissions },
            ),
            _ => None,
        }
    }

    /// Reads a list of device mappings.
    pub fn list_from_json(items: &Vec<Json>) -> (devices: Option<Vec<DeviceMapping>>)
        ensures
            devices.is_some() == decode_devices(crate::json::items_view(items@)).is_some(),
            devices matches Some(list) ==> decode_devices(crate::json::items_view(items@))
                == Some(view_seq(list@)),
    {
        let ghost all = crate::json::items_view(items@);
        let mut devices: Vec<DeviceMapping> = Vec::new();
        let mut i: usize = 0;
        while i < items.len()
            invariant
                i <= items.len(),
                all == crate::json::items_view(items@),
                decode_devices(all.take(i as int)) == Some(view_seq(devices@)),
            decreases items.len() - i,
        {
            assert(all.take(i + 1).drop_last() =~= all.take(i as int));
            match DeviceMapping::from_json(&items[i]) {
                Some(device) => {
                    devices.push(device);
                },
                None => {
                    proof {
                        lemma_decode_devices_fails(all, i as int);
                    }
                    return None;
                },
            }
            i += 1;
        }
        assert(all.take(i as int) =~= all);
        Some(devices)
    }
}

impl PortMapping {
    /// Reads a port mapping from a document in canonical shape.
    pub fn from_json(json: &Json) -> (mapping: Option<PortMapping>)
        ensures
            view_opt(mapping) == decode_port_mapping(json@),
    {
        let protocol = text_field(json, "protocol");
        let container_port = integer_field(json, "container_port");
        let host_ip = text_field(json, "host_ip");
        let host_port = integer_field(json, "host_port");
        let host_port_end = integer_field(json, "host_port_end");
        match (protocol, container_port, host_ip, host_port, host_port_end) {
            (
                Some(protocol),
                Some(container_port),
                Some(host_ip),
                Some(host_port),
                Some(host_port_end),
            ) => Some(PortMapping { protocol, container_port, host_ip, host_port, host_port_end }),
            _ => None,
        }
    }

    /// Reads a list of port mappings.
    pub fn list_from_json(items: &Vec<Json>) -> (mappings: Option<Vec<PortMapping>>)
        ensures
            mappings.is_some() == decode_port_mappings(crate::json::items_view(items@)).is_some(),
            mappings matches Some(list) ==> decode_port_mappings(crate::json::items_view(items@))
                == Some(view_seq(list@)),
    {
        let ghost all = crate::json::items_view(items@);
        let mut mappings: Vec<PortMapping> = Vec::new();
        let mut i: usize = 0;
        while i < items.len()
            invariant
                i <= items.len(),
                all == crate::json::items_view(items@),
                decode_port_mappings(all.take(i as int)) == Some(view_seq(mappings@)),
            decreases items.len() - i,
        {
            assert(all.take(i + 1).drop_last() =~= all.take(i as int));
            match PortMapping::from_json(&items[i]) {
                Some(mapping) => {
                    mappings.push(mapping);
                },
                None => {
                    proof {
                        lemma_decode_port_mappings_fails(all, i as int);
                    }
                    return None;
                },
            }
            i += 1;
        }
        assert(all.take(i as int) =~= all);
        Some(mappings)
    }
}

impl HostConfig {
    /// Reads a host configuration from a document in canonical shape.
    pub fn from_json(json: &Json) -> (config: Option<HostConfig>)
        ensures
            view_opt(config) == decode_host_config(json@),
    {
        let devices = items_field(json, "devices");
        let network_mode = text_field(json, "network_mode");
        let privileged = flag_field(json, "privileged");
        let port_mappings = items_field(json, "port_mappings");
        match (devices, network_mode, privileged, port_mappings) {
            (Some(devices), Some(network_mode), Some(privileged), Some(port_mappings)) => {
                let devices = DeviceMapping::list_from_json(devices);
                let port_mappings = PortMapping::list_from_json(port_mappings);
                match (devices, port_mappings) {
                    (Some(devices), Some(port_mappings)) => {
                        let config = HostConfig { devices, network_mode, privileged, port_mappings };
                        Some(config)
                    },
                    _ => None,
                }
            },
            _ => None,
        }
    }
}

impl ContainerConfiguration {
    /// Reads a container configuration from a document in canonical shape.
    pub fn from_json(json: &Json) -> (config: Option<ContainerConfiguration>)
        ensures
            view_opt(config) == decode_configuration(json@),
    {
        let env = texts_field(json, "env");
        let cmd = texts_field(json, "cmd");
        match (env, cmd) {
            (Some(env), Some(cmd)) => Some(ContainerConfiguration { env, cmd }),
            _ => None,
        }
    }
}

impl State {
    /// Reads a state from a document in canonical shape.
    pub fn from_json(json: &Json) -> (state: Option<State>)
        ensures
            view_opt(state) == decode_state(json@),
    {
        let running = flag_field(json, "running");
        let status = text_field(json, "status");
        let exit_code = integer_field(json, "exit_code");
        match (running, status, exit_code) {
            (Some(running), Some(status), Some(exit_code)) => Some(
                State { running, status, exit_code },
            ),
            _ => None,
        }
    }
}

impl Container {
    /// Reads a container from a document in canonical shape.
    pub fn from_json(json: &Json) -> (container: Option<Container>)
        ensures
            view_opt(container) == decode_container(json@),
    {
        let id = match text_field(json, "id") {
            Some(id) => id,
            None => {
                return None;
            },
        };
        let name = match text_field(json, "name") {
            Some(name) => name,
            None => {
                return None;
            },
        };
        let image = match nested_field(json, "image") {
            Some(nested) => match Image::from_json(nested) {
                Some(image) => Some(image),
                None => {
                    return None;
                },
            },
            None => None,
        };
        let host_name = match text_field(json, "host_name") {
            Some(host_name) => host_name,
            None => {
                return None;
            },
        };
        let domain_name = match text_field(json, "domain_name") {
            Some(domain_name) => domain_name,
            None => {
                return None;
            },
        };
        let mount_items = match items_field(json, "mounts") {
            Some(items) => items,
            None => {
                return None;
            },
        };
        let config = match nested_field(json, "config") {
            Some(nested) => match ContainerConfiguration::from_json(nested) {
                Some(config) => Some(config),
                None => {
                    return None;
                },
            },
            None => None,
        };
        let host_config = match nested_field(json, "host_config") {
            Some(nested) => match HostConfig::from_json(nested) {
                Some(host_config) => Some(host_config),
                None => {
                    return None;
                },
            },
            None => None,
        };
        let state = match nested_field(json, "state") {
            Some(nested) => match State::from_json(nested) {
                Some(state) => Some(state),
                None => {
                    return None;
                },
            },
            None => None,
        };
        let mounts = match MountPoint::list_from_json(mount_items) {
            Some(mounts) => mounts,
            None => {
                return None;
            },
        };
        let container = Container {
            id,
            name,
            image,
            host_name,
            domain_name,
            mounts,
            config,
            host_config,
            state,
        };
        Some(container)
    }
}

} // verus!
