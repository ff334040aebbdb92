//! Reading container manifests.
//!
//! A manifest in canonical shape is read as it is. Any other manifest is taken
//! to be in the simplified shape: it is merged over a template that holds
//! every canonical member with its default, and a fixed set of its members is
//! carried over to the members of the canonical shape.

use crate::canonical::{decode_container, members_of};
use crate::container::{
    ContainerConfigurationView, HostConfigView, ImageView, StateView,
};
use crate::container::{Container, ContainerView};
use crate::number::digits_value;
use crate::json::{
    find_member, json_of_text, lemma_lookup_with_member, lemma_merge_lookup, lemma_position_is,
    lookup, members_view, merge, merge_patch, merged_member, with_member, Json, JsonValue,
};
use vstd::prelude::*;

verus! {

/// Why a member could not be carried over.
#[derive(Debug, PartialEq, Eq)]
pub enum MappingError {
    /// The document that receives the member has no member of this name.
    NoSuchTemplateKey(String),
    /// The document that gives the member has no member of this name.
    NoSuchDataKey(String),
}

pub enum MappingErrorView {
    NoSuchTemplateKey(Seq<char>),
    NoSuchDataKey(Seq<char>),
}

impl View for MappingError {
    type V = MappingErrorView;

    open spec fn view(&self) -> MappingErrorView {
        match self {
            MappingError::NoSuchTemplateKey(key) => MappingErrorView::NoSuchTemplateKey(key@),
            MappingError::NoSuchDataKey(key) => MappingErrorView::NoSuchDataKey(key@),
        }
    }
}

/// Why a manifest could not be read.
#[derive(Debug, PartialEq, Eq)]
pub enum ManifestError {
    /// The manifest is no JSON.
    InvalidJson,
    /// The manifest is not in canonical shape, and merged over the template
    /// it is no object.
    NotAnObject,
    /// A member that a simplified manifest must have is not there.
    Mapping(MappingError),
    /// The manifest is not in canonical shape, and what came of its
    /// conversion is not either.
    CanonicalShape,
}

pub enum ManifestErrorView {
    InvalidJson,
    NotAnObject,
    Mapping(MappingErrorView),
    CanonicalShape,
}

impl View for ManifestError {
    type V = ManifestErrorView;

    open spec fn view(&self) -> ManifestErrorView {
        match self {
            ManifestError::InvalidJson => ManifestErrorView::InvalidJson,
            ManifestError::NotAnObject => ManifestErrorView::NotAnObject,
            ManifestError::Mapping(e) => ManifestErrorView::Mapping(e@),
            ManifestError::CanonicalShape => ManifestErrorView::CanonicalShape,
        }
    }
}

impl ManifestError {
    /// Whether the error says that a member is missing, as opposed to the
    /// manifest being unreadable.
    pub fn is_mapping_error(&self) -> (mapping: bool)
        ensures
            mapping == (self@ is Mapping),
    {
        match self {
            ManifestError::Mapping(_) => true,
            _ => false,
        }
    }
}

/// The view of the outcome of reading a manifest.
pub open spec fn outcome_view(outcome: Result<Container, ManifestError>) -> Result<
    ContainerView,
    ManifestErrorView,
> {
    match outcome {
        Ok(container) => Ok(container@),
        Err(e) => Err(e@),
    }
}

/// The members of the template: every member of the canonical shape, with
/// its default.
pub open spec fn template_members() -> Seq<(Seq<char>, JsonValue)> {
    seq![
        ("id"@, JsonValue::Text(""@)),
        ("name"@, JsonValue::Text(""@)),
        ("image"@, JsonValue::Object(seq![("name"@, JsonValue::Text(""@))])),
        ("host_name"@, JsonValue::Text(""@)),
        ("domain_name"@, JsonValue::Text(""@)),
        ("mounts"@, JsonValue::Array(Seq::empty())),
        (
            "host_config"@,
            JsonValue::Object(
                seq![
                    ("devices"@, JsonValue::Array(Seq::empty())),
                    ("network_mode"@, JsonValue::Text("bridge"@)),
                    ("privileged"@, JsonValue::Bool(false)),
                    ("port_mappings"@, JsonValue::Array(Seq::empty())),
                ],
            ),
        ),
        (
            "config"@,
            JsonValue::Object(
                seq![
                    ("env"@, JsonValue::Array(Seq::empty())),
                    ("cmd"@, JsonValue::Array(Seq::empty())),
                ],
            ),
        ),
        (
            "state"@,
            JsonValue::Object(
                seq![
                    ("running"@, JsonValue::Bool(false)),
                    ("status"@, JsonValue::Text(""@)),
                    ("exit_code"@, JsonValue::Number("0"@)),
                ],
            ),
        ),
    ]
}

/// The template.
pub open spec fn template() -> JsonValue {
    JsonValue::Object(template_members())
}

/// The members after `template_key` took the value that `data` holds under
/// `data_key`. Both members must be there.
pub open spec fn updated(
    template: Seq<(Seq<char>, JsonValue)>,
    data: Seq<(Seq<char>, JsonValue)>,
    template_key: Seq<char>,
    data_key: Seq<char>,
) -> Result<Seq<(Seq<char>, JsonValue)>, MappingErrorView> {
    if lookup(template, template_key) is None {
        Err(MappingErrorView::NoSuchTemplateKey(template_key))
    } else {
        match lookup(data, data_key) {
            Some(value) => Ok(with_member(template, template_key, value)),
            None => Err(MappingErrorView::NoSuchDataKey(data_key)),
        }
    }
}

/// The members after an update that leaves them as they are where it cannot
/// be made.
pub open spec fn updated_if_present(
    template: Seq<(Seq<char>, JsonValue)>,
    data: Seq<(Seq<char>, JsonValue)>,
    template_key: Seq<char>,
    data_key: Seq<char>,
) -> Seq<(Seq<char>, JsonValue)> {
    match updated(template, data, template_key, data_key) {
        Ok(members) => members,
        Err(_) => template,
    }
}

/// The template with the optional members of a simplified manifest carried
/// over.
pub open spec fn with_optional_members(
    template: Seq<(Seq<char>, JsonValue)>,
    data: Seq<(Seq<char>, JsonValue)>,
) -> Seq<(Seq<char>, JsonValue)> {
    let t1 = updated_if_present(template, data, "id"@, "container_id"@);
    let t2 = updated_if_present(t1, data, "domain_name"@, "domain_name"@);
    let t3 = updated_if_present(t2, data, "host_name"@, "host_name"@);
    let t4 = updated_if_present(t3, data, "mounts"@, "mount_points"@);
    let t5 = updated_if_present(t4, data, "config"@, "config"@);
    updated_if_present(t5, data, "host_config"@, "host_config"@)
}

/// The canonical document that the members of an expanded manifest give: the
/// template, with `name` taken from `container_name` and `image` from
/// `image`, which must both be there, and with the optional members carried
/// over where they are there.
pub open spec fn internal_state(data: Seq<(Seq<char>, JsonValue)>) -> Result<
    JsonValue,
    MappingErrorView,
> {
    match updated(template_members(), data, "name"@, "container_name"@) {
        Err(e) => Err(e),
        Ok(named) => match updated(named, data, "image"@, "image"@) {
            Err(e) => Err(e),
            Ok(imaged) => Ok(JsonValue::Object(with_optional_members(imaged, data))),
        },
    }
}

/// The manifest merged over the template.
pub open spec fn expanded(manifest: JsonValue) -> JsonValue {
    merge(template(), manifest)
}

/// Whether the members hold nothing under the key: the key is missing, or it
/// holds `null`.
pub open spec fn absent(members: Seq<(Seq<char>, JsonValue)>, key: Seq<char>) -> bool {
    lookup(members, key) is None || lookup(members, key) == Some(JsonValue::Null)
}

/// The first of the members that a simplified manifest must have and does
/// not have: `container_name`, then `image`.
pub open spec fn missing_member(manifest: Seq<(Seq<char>, JsonValue)>) -> Option<Seq<char>> {
    if absent(manifest, "container_name"@) {
        Some("container_name"@)
    } else if absent(manifest, "image"@) {
        Some("image"@)
    } else {
        None
    }
}

/// The container that a simplified manifest describes: the manifest must be
/// an object that has the mandatory members; merged over the template, its
/// members are carried over to a canonical document, and that is read.
pub open spec fn converted(manifest: JsonValue) -> Result<ContainerView, ManifestErrorView> {
    match manifest {
        JsonValue::Object(members) => match missing_member(members) {
            Some(key) => Err(ManifestErrorView::Mapping(MappingErrorView::NoSuchDataKey(key))),
            None => match internal_state(members_of(expanded(manifest))) {
                Err(e) => Err(ManifestErrorView::Mapping(e)),
                Ok(internal) => match decode_container(internal) {
                    Some(container) => Ok(container),
                    None => Err(ManifestErrorView::CanonicalShape),
                },
            },
        },
        _ => Err(ManifestErrorView::NotAnObject),
    }
}

/// The container that a manifest describes: the one it describes as it is,
/// where it is in canonical shape, and the one it describes as a simplified
/// manifest otherwise.
pub open spec fn normalized(manifest: JsonValue) -> Result<ContainerView, ManifestErrorView> {
    match decode_container(manifest) {
        Some(container) => Ok(container),
        None => converted(manifest),
    }
}

fn text(value: &str) -> (json: Json)
    ensures
        json@ == JsonValue::Text(value@),
{
    Json::Text(value.to_owned())
}

fn empty_list() -> (json: Json)
    ensures
        json@ == JsonValue::Array(Seq::empty()),
{
    let items: Vec<Json> = Vec::new();
    proof {
        Json::lemma_array_view(items);
        assert(crate::json::items_view(items@) =~= Seq::empty());
    }
    Json::Array(items)
}

fn object(members: Vec<(String, Json)>) -> (json: Json)
    ensures
        json@ == JsonValue::Object(members_view(members@)),
{
    proof {
        Json::lemma_object_view(members);
    }
    Json::Object(members)
}

/// The members of the template.
pub fn container_template() -> (members: Vec<(String, Json)>)
    ensures
        members_view(members@) == template_members(),
{
    let mut image: Vec<(String, Json)> = Vec::new();
    image.push(("name".to_owned(), text("")));
    assert(members_view(image@) =~= seq![("name"@, JsonValue::Text(""@))]);

    let mut host_config: Vec<(String, Json)> = Vec::new();
    host_config.push(("devices".to_owned(), empty_list()));
    host_config.push(("network_mode".to_owned(), text("bridge")));
    host_config.push(("privileged".to_owned(), Json::Bool(false)));
    host_config.push(("port_mappings".to_owned(), empty_list()));
    assert(members_view(host_config@) =~= seq![
        ("devices"@, JsonValue::Array(Seq::empty())),
        ("network_mode"@, JsonValue::Text("bridge"@)),
        ("privileged"@, JsonValue::Bool(false)),
        ("port_mappings"@, JsonValue::Array(Seq::empty())),
    ]);

    let mut config: Vec<(String, Json)> = Vec::new();
    config.push(("env".to_owned(), empty_list()));
    config.push(("cmd".to_owned(), empty_list()));
    assert(members_view(config@) =~= seq![
        ("env"@, JsonValue::Array(Seq::empty())),
        ("cmd"@, JsonValue::Array(Seq::empty())),
    ]);

    let mut state: Vec<(String, Json)> = Vec::new();
    state.push(("running".to_owned(), Json::Bool(false)));
    state.push(("status".to_owned(), text("")));
    state.push(("exit_code".to_owned(), Json::Number("0".to_owned())));
    assert(members_view(state@) =~= seq![
        ("running"@, JsonValue::Bool(false)),
        ("status"@, JsonValue::Text(""@)),
        ("exit_code"@, JsonValue::Number("0"@)),
    ]);

    let mut members: Vec<(String, Json)> = Vec::new();
    members.push(("id".to_owned(), text("")));
    members.push(("name".to_owned(), text("")));
    members.push(("image".to_owned(), object(image)));
    members.push(("host_name".to_owned(), text("")));
    members.push(("domain_name".to_owned(), text("")));
    members.push(("mounts".to_owned(), empty_list()));
    members.push(("host_config".to_owned(), object(host_config)));
    members.push(("config".to_owned(), object(config)));
    members.push(("state".to_owned(), object(state)));
    members
}

/// Gives the member `template_key` of the template the value that the data
/// hold under `data_key`. Both members must be there; where one is not, the
/// template stays as it is.
pub fn update_template(
    template: &mut Vec<(String, Json)>,
    data: &Vec<(String, Json)>,
    template_key: &str,
    data_key: &str,
) -> (done: Result<(), MappingError>)
    ensures
        match updated(
            members_view(old(template)@),
            members_view(data@),
            template_key@,
            data_key@,
        ) {
            Ok(members) => done is Ok && members_view(final(template)@) == members,
            Err(e) => done matches Err(found) && found@ == e && members_view(final(template)@)
                == members_view(old(template)@),
        },
{
    let at = find_member(template, template_key);
    if at >= template.len() {
        return Err(MappingError::NoSuchTemplateKey(template_key.to_owned()));
    }
    let from = find_member(data, data_key);
    if from >= data.len() {
        return Err(MappingError::NoSuchDataKey(data_key.to_owned()));
    }
    let value = data[from].1.duplicate();
    template.set(at, (template_key.to_owned(), value));
    Ok(())
}

/// Carries the members of an expanded manifest over to a canonical
/// document.
pub fn map_to_internal_state_manifest(container_manifest: &Json) -> (internal: Result<
    Json,
    ManifestError,
>)
    ensures
        match container_manifest@ {
            JsonValue::Object(data) => match internal_state(data) {
                Ok(document) => internal matches Ok(json) && json@ == document,
                Err(e) => internal matches Err(ManifestError::Mapping(found)) && found@ == e,
            },
            _ => internal matches Err(ManifestError::NotAnObject),
        },
{
    let mut int_state_repr = container_template();
    let ctr_manifest = match container_manifest {
        Json::Object(members) => {
            proof {
                Json::lemma_object_view(*members);
            }
            members
        },
        _ => {
            return Err(ManifestError::NotAnObject);
        },
    };
    // These members are mandatory: without them the manifest is refused.
    match update_template(&mut int_state_repr, ctr_manifest, "name", "container_name") {
        Err(e) => {
            return Err(ManifestError::Mapping(e));
        },
        Ok(()) => {},
    }
    match update_template(&mut int_state_repr, ctr_manifest, "image", "image") {
        Err(e) => {
            return Err(ManifestError::Mapping(e));
        },
        Ok(()) => {},
    }
    // These are options: where one is missing the default of the template stays.
    let _ = update_template(&mut int_state_repr, ctr_manifest, "id", "container_id");
    let _ = update_template(&mut int_state_repr, ctr_manifest, "domain_name", "domain_name");
    let _ = update_template(&mut int_state_repr, ctr_manifest, "host_name", "host_name");
    let _ = update_template(&mut int_state_repr, ctr_manifest, "mounts", "mount_points");
    let _ = update_template(&mut int_state_repr, ctr_manifest, "config", "config");
    let _ = update_template(&mut int_state_repr, ctr_manifest, "host_config", "host_config");
    Ok(object(int_state_repr))
}

/// Merges the manifest over the template that holds every option.
pub fn expand_container_manifest(manifest: &Json) -> (expansion: Json)
    ensures
        expansion@ == expanded(manifest@),
{
    let ctr_config_template = object(container_template());
    merge_patch(&ctr_config_template, manifest)
}

/// Makes sure that the manifest holds something under the key.
fn require_member(manifest: &Vec<(String, Json)>, key: &str) -> (found: Result<(), ManifestError>)
    ensures
        match found {
            Ok(()) => !absent(members_view(manifest@), key@),
            Err(e) => absent(members_view(manifest@), key@) && e@ == ManifestErrorView::Mapping(
                MappingErrorView::NoSuchDataKey(key@),
            ),
        },
{
    let at = find_member(manifest, key);
    if at < manifest.len() && !manifest[at].1.is_null() {
        Ok(())
    } else {
        Err(ManifestError::Mapping(MappingError::NoSuchDataKey(key.to_owned())))
    }
}

/// Reads the container that a manifest describes. A manifest in canonical
/// shape is read as it is; any other is converted from the simplified
/// shape.
pub fn normalize(manifest: &Json) -> (container: Result<Container, ManifestError>)
    ensures
        outcome_view(container) == normalized(manifest@),
{
    match Container::from_json(manifest) {
        Some(ctr) => Ok(ctr),
        None => {
            let members = match manifest {
                Json::Object(members) => {
                    proof {
                        Json::lemma_object_view(*members);
                    }
                    members
                },
                _ => {
                    return Err(ManifestError::NotAnObject);
                },
            };
            match require_member(members, "container_name") {
                Err(e) => {
                    return Err(e);
                },
                Ok(()) => {},
            }
            match require_member(members, "image") {
                Err(e) => {
                    return Err(e);
                },
                Ok(()) => {},
            }
            let expansion = expand_container_manifest(manifest);
            let internal_state = match map_to_internal_state_manifest(&expansion) {
                Ok(internal_state) => internal_state,
                Err(e) => {
                    return Err(e);
                },
            };
            match Container::from_json(&internal_state) {
                Some(ctr) => Ok(ctr),
                None => Err(ManifestError::CanonicalShape),
            }
        },
    }
}

/// Reads the container that the text of a manifest describes.
pub fn try_parse_manifest(container_str: &str) -> (container: Result<Container, ManifestError>)
    ensures
        outcome_view(container) == match json_of_text(container_str@) {
            Some(manifest) => normalized(manifest),
            None => Err(ManifestErrorView::InvalidJson),
        },
{
    match Json::parse(container_str) {
        Some(manifest) => normalize(&manifest),
        None => Err(ManifestError::InvalidJson),
    }
}

/// The names of the members of a manifest, by their length and their first
/// character: enough to tell any two of them apart.
pub proof fn lemma_member_names()
    ensures
        "id"@.len() == 2 && "id"@[0] == 'i',
        "name"@.len() == 4 && "name"@[0] == 'n',
        "image"@.len() == 5 && "image"@[0] == 'i',
        "host_name"@.len() == 9 && "host_name"@[0] == 'h',
        "domain_name"@.len() == 11 && "domain_name"@[0] == 'd',
        "mounts"@.len() == 6 && "mounts"@[0] == 'm',
        "host_config"@.len() == 11 && "host_config"@[0] == 'h',
        "config"@.len() == 6 && "config"@[0] == 'c',
        "state"@.len() == 5 && "state"@[0] == 's',
        "container_name"@.len() == 14 && "container_name"@[0] == 'c',
        "container_id"@.len() == 12 && "container_id"@[0] == 'c',
        "mount_points"@.len() == 12 && "mount_points"@[0] == 'm',
{
    reveal_strlit("id");
    reveal_strlit("name");
    reveal_strlit("image");
    reveal_strlit("host_name");
    reveal_strlit("domain_name");
    reveal_strlit("mounts");
    reveal_strlit("host_config");
    reveal_strlit("config");
    reveal_strlit("state");
    reveal_strlit("container_name");
    reveal_strlit("container_id");
    reveal_strlit("mount_points");
}

/// What the template holds under the names of the canonical shape, and that
/// it holds nothing under the names that only the simplified shape has.
pub proof fn lemma_template_members()
    ensures
        lookup(template_members(), "id"@) == Some(JsonValue::Text(""@)),
        lookup(template_members(), "name"@) == Some(JsonValue::Text(""@)),
        lookup(template_members(), "image"@) == Some(template_members()[2].1),
        lookup(template_members(), "host_name"@) == Some(JsonValue::Text(""@)),
        lookup(template_members(), "domain_name"@) == Some(JsonValue::Text(""@)),
        lookup(template_members(), "mounts"@) == Some(JsonValue::Array(Seq::empty())),
        lookup(template_members(), "host_config"@) == Some(template_members()[6].1),
        lookup(template_members(), "config"@) == Some(template_members()[7].1),
        lookup(template_members(), "state"@) == Some(template_members()[8].1),
        lookup(template_members(), "container_name"@) is None,
        lookup(template_members(), "container_id"@) is None,
        lookup(template_members(), "mount_points"@) is None,
{
    lemma_member_names();
    let members = template_members();
    lemma_position_is(members, "name"@, 1);
    lemma_position_is(members, "image"@, 2);
    lemma_position_is(members, "host_name"@, 3);
    lemma_position_is(members, "domain_name"@, 4);
    lemma_position_is(members, "mounts"@, 5);
    lemma_position_is(members, "host_config"@, 6);
    lemma_position_is(members, "config"@, 7);
    lemma_position_is(members, "state"@, 8);
    lemma_position_is(members, "container_name"@, 9);
    lemma_position_is(members, "container_id"@, 9);
    lemma_position_is(members, "mount_points"@, 9);
}

/// A manifest in canonical shape is read as it is: the template and the
/// conversion have no part in it.
pub proof fn law_canonical_manifest_read_directly(manifest: JsonValue)
    requires
        decode_container(manifest) is Some,
    ensures
        normalized(manifest) == Ok::<ContainerView, ManifestErrorView>(
            decode_container(manifest)->Some_0,
        ),
{
}

/// What the expanded manifest holds under a key, given what the template and
/// the manifest hold under it.
pub proof fn lemma_expanded_member(manifest: JsonValue, key: Seq<char>)
    requires
        manifest is Object,
    ensures
        expanded(manifest) is Object,
        lookup(expanded(manifest)->Object_0, key) == merged_member(
            lookup(template_members(), key),
            lookup(manifest->Object_0, key),
        ),
{
    lemma_merge_lookup(template_members(), manifest->Object_0, key);
}

/// A simplified manifest is refused with a mapping error exactly where it
/// holds nothing under `container_name` or under `image`, and the error names
/// that key; the first of the two where both are missing.
pub proof fn law_mandatory_members(manifest: JsonValue)
    requires
        manifest is Object,
        decode_container(manifest) is None,
    ensures
        normalized(manifest) matches Err(ManifestErrorView::Mapping(_)) <==> missing_member(
            manifest->Object_0,
        ) is Some,
        absent(manifest->Object_0, "container_name"@) ==> normalized(manifest) == Err::<
            ContainerView,
            ManifestErrorView,
        >(ManifestErrorView::Mapping(MappingErrorView::NoSuchDataKey("container_name"@))),
        !absent(manifest->Object_0, "container_name"@) && absent(manifest->Object_0, "image"@)
            ==> normalized(manifest) == Err::<ContainerView, ManifestErrorView>(
            ManifestErrorView::Mapping(MappingErrorView::NoSuchDataKey("image"@)),
        ),
{
    lemma_template_members();
    lemma_expanded_member(manifest, "container_name"@);
    lemma_expanded_member(manifest, "image"@);
    let data = expanded(manifest)->Object_0;
    if missing_member(manifest->Object_0) is None {
        let value = lookup(data, "container_name"@)->Some_0;
        lemma_lookup_with_member(template_members(), "name"@, value, "image"@);
    }
}

/// The name under which a simplified manifest holds what the canonical
/// shape holds under `key`, for the members that are carried over.
pub open spec fn carried_from(key: Seq<char>) -> Option<Seq<char>> {
    if key == "name"@ {
        Some("container_name"@)
    } else if key == "image"@ {
        Some("image"@)
    } else if key == "id"@ {
        Some("container_id"@)
    } else if key == "domain_name"@ {
        Some("domain_name"@)
    } else if key == "host_name"@ {
        Some("host_name"@)
    } else if key == "mounts"@ {
        Some("mount_points"@)
    } else if key == "config"@ {
        Some("config"@)
    } else if key == "host_config"@ {
        Some("host_config"@)
    } else {
        None
    }
}

/// What an update that may be left out does to what a key stands for.
proof fn lemma_updated_if_present(
    template: Seq<(Seq<char>, JsonValue)>,
    data: Seq<(Seq<char>, JsonValue)>,
    template_key: Seq<char>,
    data_key: Seq<char>,
    key: Seq<char>,
)
    ensures
        lookup(updated_if_present(template, data, template_key, data_key), key) == if key
            == template_key && lookup(template, template_key) is Some && lookup(data, data_key)
            is Some {
            lookup(data, data_key)
        } else {
            lookup(template, key)
        },
{
    if lookup(template, template_key) is Some && lookup(data, data_key) is Some {
        lemma_lookup_with_member(template, template_key, lookup(data, data_key)->Some_0, key);
    }
}

/// What the canonical document of a simplified manifest holds under a key:
/// what the expanded manifest holds under the name it is carried over from,
/// where there is such a name and the expanded manifest holds something under
/// it, and what the template holds otherwise.
pub proof fn lemma_internal_state_member(data: Seq<(Seq<char>, JsonValue)>, key: Seq<char>)
    requires
        internal_state(data) is Ok,
    ensures
        internal_state(data)->Ok_0 is Object,
        lookup(internal_state(data)->Ok_0->Object_0, key) == match carried_from(key) {
            Some(from) if lookup(data, from) is Some => lookup(data, from),
            _ => lookup(template_members(), key),
        },
{
    lemma_template_members();
    lemma_member_names();
    let t0 = template_members();
    let named = updated(t0, data, "name"@, "container_name"@)->Ok_0;
    let imaged = updated(named, data, "image"@, "image"@)->Ok_0;
    let t1 = updated_if_present(imaged, data, "id"@, "container_id"@);
    let t2 = updated_if_present(t1, data, "domain_name"@, "domain_name"@);
    let t3 = updated_if_present(t2, data, "host_name"@, "host_name"@);
    let t4 = updated_if_present(t3, data, "mounts"@, "mount_points"@);
    let t5 = updated_if_present(t4, data, "config"@, "config"@);
    lemma_updated_if_present(t0, data, "name"@, "container_name"@, key);
    lemma_updated_if_present(named, data, "image"@, "image"@, key);
    lemma_updated_if_present(imaged, data, "id"@, "container_id"@, key);
    lemma_updated_if_present(t1, data, "domain_name"@, "domain_name"@, key);
    lemma_updated_if_present(t2, data, "host_name"@, "host_name"@, key);
    lemma_updated_if_present(t3, data, "mounts"@, "mount_points"@, key);
    lemma_updated_if_present(t4, data, "config"@, "config"@, key);
    lemma_updated_if_present(t5, data, "host_config"@, "host_config"@, key);
}

/// The container that the template describes: the defaults.
pub open spec fn template_container() -> ContainerView {
    ContainerView {
        id: ""@,
        name: ""@,
        image: Some(ImageView { name: ""@ }),
        host_name: ""@,
        domain_name: ""@,
        mounts: Seq::empty(),
        config: Some(ContainerConfigurationView { env: Seq::empty(), cmd: Seq::empty() }),
        host_config: Some(
            HostConfigView {
                devices: Seq::empty(),
                network_mode: "bridge"@,
                privileged: false,
                port_mappings: Seq::empty(),
            },
        ),
        state: Some(StateView { running: false, status: ""@, exit_code: 0 }),
    }
}

/// The nested descriptions of the template decode to the defaults.
pub proof fn lemma_template_nested()
    ensures
        crate::canonical::decode_image(template_members()[2].1) == template_container().image,
        crate::canonical::decode_host_config(template_members()[6].1)
            == template_container().host_config,
        crate::canonical::decode_configuration(template_members()[7].1)
            == template_container().config,
        crate::canonical::decode_state(template_members()[8].1) == template_container().state,
{
    reveal_strlit("devices");
    reveal_strlit("network_mode");
    reveal_strlit("privileged");
    reveal_strlit("port_mappings");
    reveal_strlit("env");
    reveal_strlit("cmd");
    reveal_strlit("running");
    reveal_strlit("status");
    reveal_strlit("exit_code");
    reveal_strlit("0");
    assert("devices"@.len() == 7);
    assert("network_mode"@.len() == 12);
    assert("privileged"@.len() == 10);
    assert("env"@.len() == 3 && "env"@[0] == 'e');
    assert("running"@.len() == 7);
    assert("status"@.len() == 6);
    let host = template_members()[6].1->Object_0;
    lemma_position_is(host, "network_mode"@, 1);
    lemma_position_is(host, "privileged"@, 2);
    lemma_position_is(host, "port_mappings"@, 3);
    let config = template_members()[7].1->Object_0;
    lemma_position_is(config, "cmd"@, 1);
    let state = template_members()[8].1->Object_0;
    lemma_position_is(state, "status"@, 1);
    lemma_position_is(state, "exit_code"@, 2);
    assert(digits_value("0"@) == 0) by {
        reveal_with_fuel(digits_value, 2);
    }
}

/// The template is in canonical shape and describes the defaults.
pub proof fn lemma_template_container()
    ensures
        decode_container(template()) == Some(template_container()),
{
    lemma_template_members();
    lemma_template_nested();
}

/// Where a simplified manifest holds nothing under an optional member, the
/// container it describes has the default of the template in its place.
pub proof fn law_optional_members_default(manifest: JsonValue)
    requires
        manifest is Object,
        decode_container(manifest) is None,
        normalized(manifest) is Ok,
    ensures
        ({
            let container = normalized(manifest)->Ok_0;
            let members = manifest->Object_0;
            let defaults = template_container();
            &&& absent(members, "container_id"@) ==> container.id == defaults.id
            &&& absent(members, "domain_name"@) ==> container.domain_name == defaults.domain_name
            &&& absent(members, "host_name"@) ==> container.host_name == defaults.host_name
            &&& absent(members, "mount_points"@) ==> container.mounts == defaults.mounts
            &&& absent(members, "config"@) ==> container.config == defaults.config
            &&& absent(members, "host_config"@) ==> container.host_config == defaults.host_config
        }),
{
    lemma_template_container();
    lemma_template_members();
    lemma_member_names();
    lemma_expanded_member(manifest, "container_id"@);
    lemma_expanded_member(manifest, "domain_name"@);
    lemma_expanded_member(manifest, "host_name"@);
    lemma_expanded_member(manifest, "mount_points"@);
    lemma_expanded_member(manifest, "config"@);
    lemma_expanded_member(manifest, "host_config"@);
    let data = expanded(manifest)->Object_0;
    lemma_internal_state_member(data, "id"@);
    lemma_internal_state_member(data, "domain_name"@);
    lemma_internal_state_member(data, "host_name"@);
    lemma_internal_state_member(data, "mounts"@);
    lemma_internal_state_member(data, "config"@);
    lemma_internal_state_member(data, "host_config"@);
}

} // verus!
