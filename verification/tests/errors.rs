use layerkeys::configuration::{
    Action, Configuration, ConfigError, Layer, LayerAssignment, Layers, SimpleRemaps, TomlTree,
};

fn tree(value: &toml::Value) -> TomlTree {
    match value {
        toml::Value::String(s) => TomlTree::Text(s.clone()),
        toml::Value::Table(t) => {
            TomlTree::Table(t.iter().map(|(k, v)| (k.clone(), tree(v))).collect())
        }
        _ => TomlTree::Other,
    }
}

fn parse(toml_str: &str) -> TomlTree {
    let value: toml::Value = toml::from_str(toml_str).unwrap();
    tree(&value)
}

#[test]
fn error_messages_name_the_offender() {
    assert_eq!(
        ConfigError::InvalidKey {
            token: "warp".to_string()
        }
        .message(),
        "Invalid key: warp"
    );
    assert_eq!(
        ConfigError::LayerNotFound {
            name: "layer1".to_string()
        }
        .message(),
        "Layer not found: layer1"
    );
    assert_eq!(
        ConfigError::MissingLayers.message(),
        "Missing layers in configuration"
    );
}

#[test]
fn remaps_must_be_a_table() {
    let err = SimpleRemaps::from_toml(&TomlTree::Text("nope".to_string())).unwrap_err();
    assert_eq!(err, ConfigError::ExpectedTable);
}

#[test]
fn remap_key_must_be_in_catalog() {
    let top = parse(r#"unknown_key = "escape""#);
    let err = SimpleRemaps::from_toml(&top).unwrap_err();
    assert_eq!(
        err,
        ConfigError::InvalidRemapKey {
            token: "unknown_key".to_string()
        }
    );
}

#[test]
fn remap_value_must_be_text() {
    let top = parse(r#"caps_lock = { nested = "escape" }"#);
    let err = SimpleRemaps::from_toml(&top).unwrap_err();
    assert_eq!(
        err,
        ConfigError::ExpectedRemapString {
            key: "caps_lock".to_string()
        }
    );
}

#[test]
fn remap_value_must_be_in_catalog() {
    let top = parse(r#"caps_lock = "warp_drive""#);
    let err = SimpleRemaps::from_toml(&top).unwrap_err();
    assert_eq!(
        err,
        ConfigError::InvalidRemapValue {
            token: "warp_drive".to_string()
        }
    );
}

#[test]
fn layer_keys_must_be_text() {
    let top = parse(r#"layer1 = { keys = "a" }"#);
    let err = Layers::from_toml(&top).unwrap_err();
    assert_eq!(
        err,
        ConfigError::ExpectedLayerString {
            name: "layer1".to_string()
        }
    );
}

#[test]
fn layer_keys_must_be_in_catalog() {
    let top = parse(r#"layer1 = "left_command+warp""#);
    let err = Layers::from_toml(&top).unwrap_err();
    assert_eq!(
        err,
        ConfigError::InvalidLayerKey {
            token: "warp".to_string()
        }
    );
}

#[test]
fn empty_piece_of_key_sequence_is_rejected() {
    let top = parse(r#"layer1 = "a+""#);
    let err = Layers::from_toml(&top).unwrap_err();
    assert_eq!(
        err,
        ConfigError::InvalidLayerKey {
            token: "".to_string()
        }
    );
}

#[test]
fn action_descriptor_must_name_an_action() {
    let top = parse(r#"bogus = "x""#);
    let err = Action::from_toml(&top).unwrap_err();
    assert_eq!(err, ConfigError::UnknownAction);
}

#[test]
fn remap_action_keys_must_be_in_catalog() {
    let err = Action::parse_keys("a+warp").unwrap_err();
    assert_eq!(
        err,
        ConfigError::InvalidKey {
            token: "warp".to_string()
        }
    );
}

#[test]
fn assignment_key_must_be_in_catalog() {
    let layer = Layer {
        name: "layer1".to_string(),
        keys: vec![layerkeys::keys::Key::CapsLock],
    };
    let top = parse(r#"warp = { command = "x" }"#);
    let err = LayerAssignment::from_toml(&top, layer).unwrap_err();
    assert_eq!(
        err,
        ConfigError::InvalidKey {
            token: "warp".to_string()
        }
    );
}

#[test]
fn duplicate_assignment_keys_are_rejected() {
    let layer = Layer {
        name: "layer1".to_string(),
        keys: vec![layerkeys::keys::Key::CapsLock],
    };
    let section = TomlTree::Table(vec![
        (
            "h".to_string(),
            TomlTree::Table(vec![(
                "command".to_string(),
                TomlTree::Text("first".to_string()),
            )]),
        ),
        (
            "h".to_string(),
            TomlTree::Table(vec![(
                "command".to_string(),
                TomlTree::Text("second".to_string()),
            )]),
        ),
    ]);
    let err = LayerAssignment::from_toml(&section, layer).unwrap_err();
    assert_eq!(
        err,
        ConfigError::DuplicateAssignment {
            token: "h".to_string()
        }
    );
}

#[test]
fn missing_simple_remaps_section_fails() {
    let top = parse(
        r#"
        [layers]
        layer1 = "caps_lock"
        "#,
    );
    let err = Configuration::from_toml(&top).unwrap_err();
    assert_eq!(err, ConfigError::MissingSimpleRemaps);
}

#[test]
fn missing_layers_section_fails() {
    let top = parse(
        r#"
        [simple_remaps]
        caps_lock = "escape"
        "#,
    );
    let err = Configuration::from_toml(&top).unwrap_err();
    assert_eq!(err, ConfigError::MissingLayers);
}

#[test]
fn declared_layer_without_section_fails() {
    let top = parse(
        r#"
        [simple_remaps]
        caps_lock = "escape"

        [layers]
        layer1 = "caps_lock"
        "#,
    );
    let err = Configuration::from_toml(&top).unwrap_err();
    assert_eq!(
        err,
        ConfigError::LayerNotFound {
            name: "layer1".to_string()
        }
    );
}

#[test]
fn undeclared_next_layer_fails() {
    let top = parse(
        r#"
        [simple_remaps]
        caps_lock = "escape"

        [layers]
        layer1 = "caps_lock"

        [layer1]
        h = { command = "x", next_layer = "layer9" }
        "#,
    );
    let err = Configuration::from_toml(&top).unwrap_err();
    assert_eq!(
        err,
        ConfigError::UndeclaredLayer {
            name: "layer9".to_string()
        }
    );
}

#[test]
fn undeclared_move_layer_fails() {
    let top = parse(
        r#"
        [simple_remaps]
        caps_lock = "escape"

        [layers]
        layer1 = "caps_lock"

        [layer1]
        h = { move_layer = "layer9" }
        "#,
    );
    let err = Configuration::from_toml(&top).unwrap_err();
    assert_eq!(
        err,
        ConfigError::UndeclaredLayer {
            name: "layer9".to_string()
        }
    );
}

#[test]
fn move_layer_to_base_is_declared() {
    let top = parse(
        r#"
        [simple_remaps]
        caps_lock = "escape"

        [layers]
        layer1 = "caps_lock"

        [layer1]
        h = { move_layer = "base" }
        "#,
    );
    assert!(Configuration::from_toml(&top).is_ok());
}

#[test]
fn section_names_match_by_prefix() {
    let top = parse(
        r#"
        [simple_remaps]
        caps_lock = "escape"

        [layers]
        layer1 = "caps_lock"

        [layer1_navigation_keys]
        h = { command = "x" }
        "#,
    );
    let config = Configuration::from_toml(&top).unwrap();
    assert_eq!(config.layer_assignments.assignments.len(), 1);
    assert_eq!(
        config.layer_assignments.assignments[0].layer.name,
        "layer1"
    );
}
