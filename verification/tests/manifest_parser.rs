use kanto_auto_deployer::container::{Container, Image};
use kanto_auto_deployer::json::{merge_patch, Json};
use kanto_auto_deployer::manifest_parser::{
    container_template, expand_container_manifest, map_to_internal_state_manifest, normalize,
    try_parse_manifest, update_template, ManifestError, MappingError,
};

fn to_value(json: &Json) -> serde_json::Value {
    match json {
        Json::Null => serde_json::Value::Null,
        Json::Bool(b) => serde_json::Value::Bool(*b),
        Json::Number(n) => serde_json::Value::Number(n.parse().unwrap()),
        Json::Text(t) => serde_json::Value::String(t.clone()),
        Json::Array(items) => serde_json::Value::Array(items.iter().map(to_value).collect()),
        Json::Object(members) => serde_json::Value::Object(
            members.iter().map(|(k, v)| (k.clone(), to_value(v))).collect(),
        ),
    }
}

const CANONICAL: &str = r#"{
    "id": "",
    "name": "databroker",
    "image": {"name": "ghcr.io/eclipse/kuksa.val/databroker:0.3.0"},
    "host_name": "",
    "domain_name": "",
    "mounts": [],
    "host_config": {
        "devices": [],
        "network_mode": "bridge",
        "privileged": false,
        "port_mappings": [
            {"protocol": "tcp", "container_port": 55555, "host_ip": "localhost",
             "host_port": 30555, "host_port_end": 30555}
        ]
    },
    "config": {"env": ["RUST_LOG=info"], "cmd": []},
    "state": null
}"#;

#[test]
fn canonical_manifest_is_read_as_it_is() {
    let c = try_parse_manifest(CANONICAL).unwrap();
    assert_eq!(c.name, "databroker");
    assert_eq!(c.image, Some(Image { name: "ghcr.io/eclipse/kuksa.val/databroker:0.3.0".to_string() }));
    let host = c.host_config.unwrap();
    assert_eq!(host.network_mode, "bridge");
    assert_eq!(host.port_mappings.len(), 1);
    assert_eq!(host.port_mappings[0].container_port, 55555);
    assert_eq!(host.port_mappings[0].host_port_end, 30555);
    assert_eq!(c.config.unwrap().env, vec!["RUST_LOG=info".to_string()]);
    assert_eq!(c.state, None);
}

#[test]
fn simplified_manifest_is_expanded() {
    let text = r#"{
        "container_name": "feedercan",
        "image": {"name": "ghcr.io/eclipse/kuksa.val.feeders/dbc2val:v0.1.1"},
        "host_config": {"network_mode": "host", "privileged": true},
        "mount_points": [{"source": "/data", "destination": "/data", "propagation_mode": "rprivate"}],
        "config": {"env": ["A=B"]}
    }"#;
    let c = try_parse_manifest(text).unwrap();
    assert_eq!(c.name, "feedercan");
    assert_eq!(c.id, "");
    assert_eq!(c.image.unwrap().name, "ghcr.io/eclipse/kuksa.val.feeders/dbc2val:v0.1.1");
    let host = c.host_config.unwrap();
    assert_eq!(host.network_mode, "host");
    assert!(host.privileged);
    assert!(host.devices.is_empty());
    assert!(host.port_mappings.is_empty());
    assert_eq!(c.mounts.len(), 1);
    assert_eq!(c.mounts[0].propagation_mode, "rprivate");
    let config = c.config.unwrap();
    assert_eq!(config.env, vec!["A=B".to_string()]);
    assert!(config.cmd.is_empty());
    assert_eq!(c.host_name, "");
    assert_eq!(c.domain_name, "");
}

#[test]
fn missing_container_name_is_a_mapping_error() {
    let text = r#"{"image": {"name": "x"}}"#;
    assert_eq!(
        try_parse_manifest(text),
        Err(ManifestError::Mapping(MappingError::NoSuchDataKey("container_name".to_string())))
    );
}

#[test]
fn deleted_image_is_a_mapping_error() {
    let text = r#"{"container_name": "x", "image": null}"#;
    let err = try_parse_manifest(text).unwrap_err();
    assert!(err.is_mapping_error());
    assert_eq!(err, ManifestError::Mapping(MappingError::NoSuchDataKey("image".to_string())));
}

#[test]
fn missing_image_is_a_mapping_error() {
    let text = r#"{"container_name": "x"}"#;
    assert_eq!(
        try_parse_manifest(text),
        Err(ManifestError::Mapping(MappingError::NoSuchDataKey("image".to_string())))
    );
}

#[test]
fn missing_container_name_is_named_first() {
    assert_eq!(
        try_parse_manifest("{}"),
        Err(ManifestError::Mapping(MappingError::NoSuchDataKey("container_name".to_string())))
    );
    assert_eq!(
        try_parse_manifest(r#"{"container_name": null, "image": {"name": "x"}}"#),
        Err(ManifestError::Mapping(MappingError::NoSuchDataKey("container_name".to_string())))
    );
}

#[test]
fn missing_optional_members_take_the_defaults_of_the_template() {
    let c = try_parse_manifest(r#"{"container_name": "x", "image": {"name": "i"}}"#).unwrap();
    let defaults = normalize(&Json::Object(container_template())).unwrap();
    assert_eq!(c.id, defaults.id);
    assert_eq!(c.domain_name, defaults.domain_name);
    assert_eq!(c.host_name, defaults.host_name);
    assert_eq!(c.mounts, defaults.mounts);
    assert_eq!(c.config, defaults.config);
    assert_eq!(c.host_config, defaults.host_config);
    let nulled = try_parse_manifest(
        r#"{"container_name": "x", "image": {"name": "i"}, "host_config": null, "config": null,
            "host_name": null, "domain_name": null, "mount_points": null, "container_id": null}"#,
    )
    .unwrap();
    assert_eq!(nulled, c);
}

#[test]
fn optional_members_are_carried_over() {
    let c = try_parse_manifest(
        r#"{"container_name": "x", "image": {"name": "i"}, "container_id": "id-1",
            "host_name": "h", "domain_name": "d", "mounts": [{"bad": 1}], "name": "ignored"}"#,
    )
    .unwrap();
    assert_eq!(c.id, "id-1");
    assert_eq!(c.name, "x");
    assert_eq!(c.host_name, "h");
    assert_eq!(c.domain_name, "d");
    assert!(c.mounts.is_empty());
}

#[test]
fn written_container_reads_back() {
    let c = try_parse_manifest(CANONICAL).unwrap();
    let written = c.to_json();
    assert_eq!(normalize(&written), Ok(try_parse_manifest(CANONICAL).unwrap()));
    let text = to_value(&written).to_string();
    assert_eq!(try_parse_manifest(&text), Ok(c));
    let defaults = normalize(&Json::Object(container_template())).unwrap();
    assert_eq!(Container::from_json(&defaults.to_json()), Some(defaults));
}

#[test]
fn written_numbers_read_back() {
    for port in [0, 1, -1, 80, 65535, i64::MAX, i64::MIN] {
        let mapping = kanto_auto_deployer::container::PortMapping {
            protocol: "tcp".to_string(),
            container_port: port,
            host_ip: String::new(),
            host_port: port,
            host_port_end: port,
        };
        let written = mapping.to_json();
        assert_eq!(
            to_value(written.get("container_port").unwrap()),
            serde_json::Value::from(port)
        );
        assert_eq!(kanto_auto_deployer::container::PortMapping::from_json(&written), Some(mapping));
    }
}

#[test]
fn malformed_json_is_refused() {
    assert_eq!(try_parse_manifest("{ not json"), Err(ManifestError::InvalidJson));
}

#[test]
fn manifest_that_is_no_object_is_refused() {
    assert_eq!(try_parse_manifest("[1, 2]"), Err(ManifestError::NotAnObject));
    assert_eq!(try_parse_manifest("\"text\""), Err(ManifestError::NotAnObject));
}

#[test]
fn member_out_of_shape_is_refused() {
    let text = r#"{"container_name": "x", "image": {"name": "i"}, "host_config": {"privileged": "yes"}}"#;
    assert_eq!(try_parse_manifest(text), Err(ManifestError::CanonicalShape));
}

#[test]
fn template_is_in_canonical_shape() {
    let template = Json::Object(container_template());
    let c: Container = normalize(&template).unwrap();
    assert_eq!(c.name, "");
    assert_eq!(c.host_config.unwrap().network_mode, "bridge");
    assert_eq!(c.state.unwrap().exit_code, 0);
}

#[test]
fn merge_agrees_with_json_patch() {
    let docs = [
        r#"{"title":"Goodbye!","author":{"givenName":"John","familyName":"Doe"},"tags":["example","sample"],"content":"This will be unchanged"}"#,
        r#"{"a":"b"}"#,
        r#"["a","b"]"#,
        r#"{"a":{"b":"c"}}"#,
        r#"{"e":null}"#,
        r#"{}"#,
        r#"1"#,
    ];
    let patches = [
        r#"{"title":"Hello!","phoneNumber":"+01-123-456-7890","author":{"familyName":null},"tags":["example"]}"#,
        r#"{"a":"c"}"#,
        r#"{"b":"c"}"#,
        r#"{"a":null}"#,
        r#"{"a":["c"]}"#,
        r#"["c"]"#,
        r#"{"a":{"b":"d","c":null}}"#,
        r#"{"a":[{"b":"c"}]}"#,
        r#"null"#,
        r#"{"a":{"bb":{"ccc":null}}}"#,
        r#"{"a":1}"#,
    ];
    for doc in docs {
        for patch in patches {
            let merged = merge_patch(&Json::parse(doc).unwrap(), &Json::parse(patch).unwrap());
            let mut expected: serde_json::Value = serde_json::from_str(doc).unwrap();
            json_patch::merge(&mut expected, &serde_json::from_str(patch).unwrap());
            assert_eq!(to_value(&merged), expected, "doc {doc} patch {patch}");
        }
    }
}

#[test]
fn expansion_fills_in_the_template() {
    let manifest =
        Json::parse(r#"{"container_name": "x", "host_config": {"privileged": true}}"#).unwrap();
    let expanded = expand_container_manifest(&manifest);
    let host = expanded.get("host_config").unwrap();
    assert_eq!(to_value(host.get("privileged").unwrap()), serde_json::Value::Bool(true));
    assert_eq!(
        to_value(host.get("network_mode").unwrap()),
        serde_json::Value::String("bridge".to_string())
    );
    assert!(expanded.get("container_name").is_some());
    assert!(expanded.get("name").is_some());
}

#[test]
fn update_needs_both_members() {
    let mut template = vec![("name".to_string(), Json::Text(String::new()))];
    let data = vec![("container_name".to_string(), Json::Text("x".to_string()))];
    assert_eq!(
        update_template(&mut template, &data, "label", "container_name"),
        Err(MappingError::NoSuchTemplateKey("label".to_string()))
    );
    assert_eq!(
        update_template(&mut template, &data, "name", "image"),
        Err(MappingError::NoSuchDataKey("image".to_string()))
    );
    assert_eq!(
        to_value(&Json::Object(template)),
        serde_json::Value::Object(
            [("name".to_string(), serde_json::Value::String(String::new()))].into_iter().collect()
        )
    );
    let mut template = vec![("name".to_string(), Json::Text(String::new()))];
    assert_eq!(update_template(&mut template, &data, "name", "container_name"), Ok(()));
    assert_eq!(to_value(template[0].1.get("x").unwrap_or(&template[0].1)).as_str(), Some("x"));
}

#[test]
fn members_are_carried_over_to_the_canonical_document() {
    let expanded = expand_container_manifest(
        &Json::parse(r#"{"container_name": "x", "image": {"name": "i"}, "mount_points": []}"#).unwrap(),
    );
    let internal = map_to_internal_state_manifest(&expanded).unwrap();
    assert_eq!(to_value(internal.get("name").unwrap()).as_str(), Some("x"));
    assert_eq!(to_value(internal.get("image").unwrap()).to_string(), r#"{"name":"i"}"#);
    assert!(internal.get("container_name").is_none());
    assert!(internal.get("mount_points").is_none());
    assert_eq!(
        map_to_internal_state_manifest(&Json::Array(vec![])).err(),
        Some(ManifestError::NotAnObject)
    );
    assert_eq!(
        map_to_internal_state_manifest(&Json::Object(vec![])).err(),
        Some(ManifestError::Mapping(MappingError::NoSuchDataKey("container_name".to_string())))
    );
}
