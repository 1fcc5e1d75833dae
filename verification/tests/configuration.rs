use layerkeys::configuration::{
    Action, Command, Configuration, Layer, LayerAssignment, LayerAssignments, LayerRemap, Layers,
    SimpleRemaps, TomlTree,
};
use layerkeys::keys::Key;

fn tree(value: &toml::Value) -> TomlTree {
    match value {
        toml::Value::String(s) => TomlTree::Text(s.clone()),
        toml::Value::Table(t) => {
            TomlTree::Table(t.iter().map(|(k, v)| (k.clone(), tree(v))).collect())
        }
        _ => TomlTree::Other,
    }
}

#[test]
fn test_parse_action() {
    let toml_str = r#"
            command = "hello"
            "#;

    let expected = Action::Command(Command {
        value: String::from("hello"),
    });
    let toml_value: toml::Value = toml::from_str(toml_str).unwrap();
    let action = Action::from_toml(&tree(&toml_value)).unwrap();

    assert_eq!(action, expected);
}

#[test]
fn test_parse_layer_assignment_command() {
    let toml_str = r#"
            h = { command = "hello" }
            "#;

    let layer = Layer {
        name: "layer1".to_string(),
        keys: vec![Key::LeftCommand],
    };

    let expected = vec![LayerAssignment {
        layer: layer.clone(),
        key: Key::H,
        action: Action::Command(Command {
            value: String::from("hello"),
        }),
        next_layer: None,
        description: None,
    }];
    let toml_value: toml::Value = toml::from_str(toml_str).unwrap();
    let layer_assignment = LayerAssignment::from_toml(&tree(&toml_value), layer).unwrap();

    assert_eq!(layer_assignment, expected);
}

#[test]
fn test_parse_layer_assignment_remap() {
    let toml_str = r#"
            h = { remap = "j+v" }
            "#;

    let layer = Layer {
        name: "layer1".to_string(),
        keys: vec![Key::LeftControl],
    };

    let expected = vec![LayerAssignment {
        layer: layer.clone(),
        key: Key::H,
        action: Action::LayerRemap(LayerRemap {
            to: vec![Key::J, Key::V],
        }),
        next_layer: None,
        description: None,
    }];
    let toml_value: toml::Value = toml::from_str(toml_str).unwrap();
    let layer_assignment = LayerAssignment::from_toml(&tree(&toml_value), layer).unwrap();

    assert_eq!(layer_assignment, expected);
}

#[test]
fn test_get_assignments_for_layer() {
    let toml_str = r#"
            [layer1]
            h = { command = "hello" }
            y = { command = "hello2", target_layer = "base", description = "These arguments are optional" }
            a = { remap =  "left_command+shift+left_arrow"}

            [layer2]
            a = { command = "app_launcher" }
            "#;
    let expected_str = r#"
            h = { command = "hello" }
            y = { command = "hello2", target_layer = "base", description = "These arguments are optional" }
            a = { remap =  "left_command+shift+left_arrow"}
            "#;
    let expected_value: toml::Value = toml::from_str(expected_str).unwrap();
    let expected_toml = tree(&expected_value);
    let layer_name = "layer1";
    let toml_value: toml::Value = toml::from_str(toml_str).unwrap();
    let top = tree(&toml_value);

    let layer_assignments =
        LayerAssignments::get_assignments_for_layer(layer_name, &top).unwrap();
    assert_eq!(layer_assignments, &expected_toml);
}

#[test]
fn test_parse_layers_assignments() {
    let toml_str = r#"
            [layer1]
            h = { command = "hello" }
            y = { command = "hello2", next_layer= "layer1", description = "These arguments are optional" }

            [layer2]
            a = { command = "app_launcher" }
            "#;

    let layer1 = Layer {
        name: "layer1".to_string(),
        keys: vec![Key::LeftCommand],
    };
    let layer2 = Layer {
        name: "layer2".to_string(),
        keys: vec![Key::A],
    };

    let layers = vec![layer1.clone(), layer2.clone()];

    let toml_value: toml::Value = toml::from_str(toml_str).unwrap();
    let layer_assignments = LayerAssignments::from_toml(&tree(&toml_value), layers).unwrap();

    let expected = LayerAssignments {
        assignments: vec![
            LayerAssignment {
                layer: layer1.clone(),
                key: Key::H,
                action: Action::Command(Command {
                    value: String::from("hello"),
                }),
                next_layer: None,
                description: None,
            },
            LayerAssignment {
                layer: layer1.clone(),
                key: Key::Y,
                action: Action::Command(Command {
                    value: String::from("hello2"),
                }),
                next_layer: Some(layer1.clone().name),
                description: Some(String::from("These arguments are optional")),
            },
            LayerAssignment {
                layer: layer2.clone(),
                key: Key::A,
                action: Action::Command(Command {
                    value: String::from("app_launcher"),
                }),
                next_layer: None,
                description: None,
            },
        ],
    };
    assert_eq!(layer_assignments, expected);
}

#[test]
fn test_remaps_from_toml() {
    let toml_str = r#"
        [simple_remaps]
        caps_lock= "left_command"
        v = "escape"
        "#;

    let toml_value: toml::Value = toml::from_str(toml_str).unwrap();
    let top = tree(&toml_value);
    let remaps = SimpleRemaps::from_toml(top.get("simple_remaps").unwrap()).unwrap();

    assert_eq!(remaps.remaps.len(), 2);
    assert_eq!(remaps.remaps[0].from, Key::CapsLock);
    assert_eq!(remaps.remaps[0].to[0], Key::LeftCommand);
    assert_eq!(remaps.remaps[1].from, Key::V);
    assert_eq!(remaps.remaps[1].to[0], Key::Escape);
}

#[test]
fn composite_remap_target_keeps_key_order() {
    let toml_str = r#"
        [simple_remaps]
        v = "left_command+v"
        "#;

    let toml_value: toml::Value = toml::from_str(toml_str).unwrap();
    let top = tree(&toml_value);
    let remaps = SimpleRemaps::from_toml(top.get("simple_remaps").unwrap()).unwrap();

    assert_eq!(remaps.remaps.len(), 1);
    assert_eq!(remaps.remaps[0].from, Key::V);
    assert_eq!(remaps.remaps[0].to, vec![Key::LeftCommand, Key::V]);
}

#[test]
fn test_layers_from_toml() {
    let toml_str = r#"
            [layers]
            layer1 = "left_command"
            layer2 = "left_command+v"
            "#;

    let toml_value: toml::Value = toml::from_str(toml_str).unwrap();
    let top = tree(&toml_value);
    let layers = Layers::from_toml(top.get("layers").unwrap()).unwrap();

    assert_eq!(layers.layers.len(), 2);
    assert_eq!(layers.layers[0].name, "layer1".to_string());
    assert_eq!(layers.layers[0].keys[0], Key::LeftCommand);

    assert_eq!(layers.layers[1].name, "layer2".to_string());
    assert_eq!(layers.layers[1].keys[0], Key::LeftCommand);
    assert_eq!(layers.layers[1].keys[1], Key::V);
}

#[test]
fn test_configuration_from_toml() {
    let toml_str = r#"
            [simple_remaps]
            caps_lock = "left_command"

            [layers]
            layer1 = "left_command"
            layer2 = "left_command+v"

            [layer1]
            h = { command = "hello" }
            y = { command = "hello2", target_layer = "base", description = "These arguments are optional" }
            a = { remap =  "left_command+left_arrow"}
            n = { remap = "left_command+down_arrow", target_layer = "layer2", description = "These arguments are optional" }
            escape = { move_layer = "base"}

            [layer2]
            a = { command = "app_launcher" }
            "#;

    let toml_value: toml::Value = toml::from_str(toml_str).unwrap();
    let _config = Configuration::from_toml(&tree(&toml_value)).unwrap();
}
