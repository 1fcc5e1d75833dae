use layerkeys::configuration::{
    Action, Command, Layer, LayerAssignment, LayerRemap, LayerShift, SimpleRemap, SimpleRemaps,
};
use layerkeys::converter::{layer_assignment_to_rule, layer_to_rule, remaps_to_simple_modifications, BASE_LAYER};
use layerkeys::karabiner::{
    Condition, DelayedAction, FromKeyMapping, ManipulationTarget, Manipulator, Modifiers, Rule,
    SetVariable, ShellCommand, ToKeyMapping,
};
use layerkeys::keys::Key;

#[test]
fn test_remaps_to_simple_modifications() {
    let remaps = SimpleRemaps {
        remaps: vec![
            SimpleRemap {
                from: Key::CapsLock,
                to: vec![Key::LeftCommand],
            },
            SimpleRemap {
                from: Key::V,
                to: vec![Key::LeftCommand, Key::V],
            },
        ],
    };

    let simple_modifications = remaps_to_simple_modifications(remaps);

    assert_eq!(simple_modifications.len(), 2);
    assert_eq!(simple_modifications[0].from.key_code, Key::CapsLock);
    assert_eq!(simple_modifications[0].to.len(), 1);
    assert_eq!(simple_modifications[0].to[0].key_code, Key::LeftCommand);

    assert_eq!(simple_modifications[1].from.key_code, Key::V);
    assert_eq!(simple_modifications[1].to.len(), 2);
    assert_eq!(simple_modifications[1].to[0].key_code, Key::LeftCommand);
    assert_eq!(simple_modifications[1].to[1].key_code, Key::V);
}

#[test]
fn test_layer_creates_rule() {
    let name = String::from("layer1");
    let keys = vec![Key::LeftCommand];

    let layer = Layer {
        name: name.clone(),
        keys: keys.clone(),
    };

    let expected_rule = Rule::set_environment(name, keys.into());
    let rule = layer_to_rule(layer);

    assert_eq!(rule, expected_rule);
    assert_eq!(
        rule.manipulators.first().unwrap().from.key_code,
        Key::LeftCommand
    );
    assert_eq!(
        rule.manipulators.clone().first().unwrap().from.modifiers,
        None
    );
    assert_eq!(rule.description, Some("Change to layer1".to_string()));
    assert_eq!(rule.manipulators.first().unwrap().conditions, Some(vec![]));
}

#[test]
fn test_layer_with_two_keys_creates_rule() {
    let name = String::from("layer1");
    let keys = vec![Key::LeftCommand, Key::V];

    let layer = Layer {
        name: name.clone(),
        keys: keys.clone(),
    };

    let expected_rule = Rule::set_environment(name, keys.into());
    let rule = layer_to_rule(layer);

    assert_eq!(rule, expected_rule);
    assert_eq!(
        rule.manipulators.first().unwrap().from.key_code,
        Key::LeftCommand
    );
    assert_eq!(
        rule.manipulators.first().unwrap().from.modifiers,
        Some(Modifiers {
            mandatory: Some(vec![Key::V]),
            optional: None,
        })
    );
}

#[test]
fn test_layer_assignment_to_remap() {
    let layer_assignment = LayerAssignment {
        layer: Layer {
            name: "layer1".to_string(),
            keys: vec![Key::LeftCommand],
        },
        key: Key::H,
        action: Action::LayerRemap(LayerRemap {
            to: vec![Key::Escape, Key::LeftShift],
        }),
        next_layer: Some(BASE_LAYER.to_string()),
        description: None,
    };

    let expected = Rule {
        description: Some("Remap h to escape".to_string()),
        enabled: true,
        manipulators: vec![Manipulator {
            conditions: Some(vec![Condition {
                name: "layer1".to_string(),
                condition_type: "variable_if".into(),
                value: 1,
            }]),
            from: FromKeyMapping {
                key_code: Key::H,
                modifiers: None,
            },
            to: Some(vec![ManipulationTarget::KeyMapping(ToKeyMapping {
                key_code: Key::Escape,
                modifiers: vec![Key::LeftShift],
            })]),
            manipulator_type: "basic".into(),
            to_if_alone: None,
            to_after_key_up: None,
            to_delayed_action: Some(DelayedAction {
                to_if_invoked: vec![SetVariable::new("layer1".to_string(), 0)],
                to_if_canceled: vec![],
            }),
        }],
    };

    let rule = layer_assignment_to_rule(layer_assignment);

    assert_eq!(rule, expected);
}

#[test]
fn test_layer_assignment_to_command() {
    let base_layer = Layer {
        name: BASE_LAYER.to_string(),
        keys: vec![],
    };
    let layer_assignment = LayerAssignment {
        layer: Layer {
            name: "layer1".to_string(),
            keys: vec![Key::LeftCommand],
        },
        key: Key::H,
        action: Action::Command(Command {
            value: String::from("open -a Terminal"),
        }),
        next_layer: Some(base_layer.name),
        description: None,
    };

    let expected = Rule {
        description: Some("Run command open -a Terminal".to_string()),
        enabled: true,
        manipulators: vec![Manipulator {
            conditions: Some(vec![Condition {
                name: "layer1".to_string(),
                condition_type: "variable_if".into(),
                value: 1,
            }]),
            from: FromKeyMapping {
                key_code: Key::H,
                modifiers: None,
            },
            to: Some(vec![ManipulationTarget::ShellCommand(ShellCommand {
                shell_command: "open -a Terminal".to_string(),
            })]),
            manipulator_type: "basic".into(),
            to_if_alone: None,
            to_after_key_up: None,
            to_delayed_action: Some(DelayedAction {
                to_if_canceled: vec![],
                to_if_invoked: vec![SetVariable::new("layer1".to_string(), 0)],
            }),
        }],
    };

    let rule = layer_assignment_to_rule(layer_assignment);

    assert_eq!(rule, expected);
}

#[test]
fn test_layer_assignment_to_layer_change() {
    let layer_assignment = LayerAssignment {
        layer: Layer {
            name: "layer1".to_string(),
            keys: vec![Key::LeftCommand],
        },
        key: Key::H,
        action: Action::LayerShift(LayerShift {
            move_layer: "layer2".into(),
        }),
        next_layer: None,
        description: None,
    };

    // A layer shift is always available, independent of the current
    // layer, so its manipulator carries no guard condition.
    let expected = Rule {
        description: Some("Switch to layer2".to_string()),
        enabled: true,
        manipulators: vec![Manipulator {
            conditions: Some(vec![]),
            from: FromKeyMapping {
                key_code: Key::H,
                modifiers: None,
            },
            to: Some(vec![
                ManipulationTarget::SetVariable(SetVariable::new("layer2".to_string(), 1)),
                ManipulationTarget::SetVariable(SetVariable::new("layer1".to_string(), 0)),
            ]),
            manipulator_type: "basic".into(),
            to_if_alone: None,
            to_after_key_up: None,
            to_delayed_action: None,
        }],
    };

    let rule = layer_assignment_to_rule(layer_assignment);

    assert_eq!(rule, expected);
}
