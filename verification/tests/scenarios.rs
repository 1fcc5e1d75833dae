use layerkeys::configuration::{
    Action, Command, Configuration, Layer, LayerAssignment, LayerAssignments, LayerRemap,
    LayerShift, Layers, SimpleRemap, SimpleRemaps,
};
use layerkeys::converter::convert_configuration;
use layerkeys::karabiner::{
    Condition, ManipulationTarget, Profiles, Rule, SetVariable,
};
use layerkeys::keys::Key;
use layerkeys::replace_config;

fn empty_configuration() -> Configuration {
    Configuration {
        simple_remaps: SimpleRemaps { remaps: vec![] },
        layers: Layers { layers: vec![] },
        layer_assignments: LayerAssignments {
            assignments: vec![],
        },
    }
}

fn layer1() -> Layer {
    Layer {
        name: "layer1".to_string(),
        keys: vec![Key::CapsLock],
    }
}

#[test]
fn scenario_simple_remap_only() {
    let mut config = empty_configuration();
    config.simple_remaps.remaps.push(SimpleRemap {
        from: Key::CapsLock,
        to: vec![Key::Escape],
    });

    let output = convert_configuration(&config);

    assert_eq!(output.profiles.len(), 1);
    let profile = &output.profiles[0];
    assert_eq!(profile.complex_modifications.rules.len(), 0);
    assert_eq!(profile.devices.len(), 1);
    let mods = &profile.devices[0].simple_modifications;
    assert_eq!(mods.len(), 1);
    assert_eq!(mods[0].from.key_code, Key::CapsLock);
    assert_eq!(mods[0].to.len(), 1);
    assert_eq!(mods[0].to[0].key_code, Key::Escape);
}

#[test]
fn scenario_command_without_next_layer() {
    let mut config = empty_configuration();
    config.layers.layers.push(layer1());
    config.layer_assignments.assignments.push(LayerAssignment {
        layer: layer1(),
        key: Key::H,
        action: Action::Command(Command {
            value: "hello".to_string(),
        }),
        next_layer: None,
        description: None,
    });

    let output = convert_configuration(&config);
    let rules = &output.profiles[0].complex_modifications.rules;
    assert_eq!(rules.len(), 2);

    // The activation rule is unconditioned and sets layer1 to 1.
    let activation = &rules[0].manipulators[0];
    assert_eq!(activation.conditions, Some(vec![]));
    assert_eq!(activation.from.key_code, Key::CapsLock);
    assert_eq!(
        activation.to,
        Some(vec![ManipulationTarget::SetVariable(SetVariable::new(
            "layer1".to_string(),
            1
        ))])
    );

    // The assignment rule is guarded by layer1 = 1 and runs the
    // command, with no delayed action: the layer stays active.
    let binding = &rules[1].manipulators[0];
    assert_eq!(
        binding.conditions,
        Some(vec![Condition::active("layer1".to_string())])
    );
    assert_eq!(binding.from.key_code, Key::H);
    match binding.to.as_ref().unwrap().as_slice() {
        [ManipulationTarget::ShellCommand(c)] => assert_eq!(c.shell_command, "hello"),
        other => panic!("unexpected to list: {:?}", other),
    }
    assert_eq!(binding.to_delayed_action, None);
}

#[test]
fn scenario_next_layer_base() {
    let mut config = empty_configuration();
    config.layers.layers.push(layer1());
    config.layer_assignments.assignments.push(LayerAssignment {
        layer: layer1(),
        key: Key::H,
        action: Action::Command(Command {
            value: "hello".to_string(),
        }),
        next_layer: Some("base".to_string()),
        description: None,
    });

    let output = convert_configuration(&config);
    let rules = &output.profiles[0].complex_modifications.rules;
    let binding = &rules[1].manipulators[0];

    // Moving back to base needs no activation write: the delayed
    // action only clears layer1.
    let delayed = binding.to_delayed_action.as_ref().unwrap();
    assert_eq!(
        delayed.to_if_invoked,
        vec![SetVariable::new("layer1".to_string(), 0)]
    );
    assert_eq!(delayed.to_if_canceled, vec![]);
}

#[test]
fn scenario_next_layer_non_base() {
    let mut config = empty_configuration();
    config.layers.layers.push(layer1());
    config.layers.layers.push(Layer {
        name: "layer2".to_string(),
        keys: vec![Key::Tab],
    });
    config.layer_assignments.assignments.push(LayerAssignment {
        layer: layer1(),
        key: Key::H,
        action: Action::Command(Command {
            value: "hello".to_string(),
        }),
        next_layer: Some("layer2".to_string()),
        description: None,
    });

    let output = convert_configuration(&config);
    let rules = &output.profiles[0].complex_modifications.rules;
    let binding = &rules[2].manipulators[0];

    // The destination is activated before the source is deactivated,
    // so the writes never pass through "no layer active".
    let delayed = binding.to_delayed_action.as_ref().unwrap();
    assert_eq!(
        delayed.to_if_invoked,
        vec![
            SetVariable::new("layer2".to_string(), 1),
            SetVariable::new("layer1".to_string(), 0),
        ]
    );
}

#[test]
fn scenario_layer_shift() {
    let mut config = empty_configuration();
    config.layers.layers.push(layer1());
    config.layers.layers.push(Layer {
        name: "layer2".to_string(),
        keys: vec![Key::Tab],
    });
    config.layer_assignments.assignments.push(LayerAssignment {
        layer: layer1(),
        key: Key::H,
        action: Action::LayerShift(LayerShift {
            move_layer: "layer2".to_string(),
        }),
        next_layer: None,
        description: None,
    });

    let output = convert_configuration(&config);
    let rules = &output.profiles[0].complex_modifications.rules;
    let binding = &rules[2].manipulators[0];

    // A shift carries no guard and switches immediately: activate the
    // destination, then deactivate the source; nothing is delayed.
    assert_eq!(binding.conditions, Some(vec![]));
    assert_eq!(
        binding.to,
        Some(vec![
            ManipulationTarget::SetVariable(SetVariable::new("layer2".to_string(), 1)),
            ManipulationTarget::SetVariable(SetVariable::new("layer1".to_string(), 0)),
        ])
    );
    assert_eq!(binding.to_delayed_action, None);
}

#[test]
fn compile_twice_is_identical() {
    let mut config = empty_configuration();
    config.simple_remaps.remaps.push(SimpleRemap {
        from: Key::CapsLock,
        to: vec![Key::Escape],
    });
    config.layers.layers.push(layer1());
    config.layer_assignments.assignments.push(LayerAssignment {
        layer: layer1(),
        key: Key::H,
        action: Action::Command(Command {
            value: "hello".to_string(),
        }),
        next_layer: Some("base".to_string()),
        description: Some("say hello".to_string()),
    });

    let first = convert_configuration(&config);
    let second = convert_configuration(&config);
    assert_eq!(first, second);
}

#[test]
fn user_description_overrides_synthesized() {
    let mut config = empty_configuration();
    config.layers.layers.push(layer1());
    config.layer_assignments.assignments.push(LayerAssignment {
        layer: layer1(),
        key: Key::H,
        action: Action::Command(Command {
            value: "hello".to_string(),
        }),
        next_layer: None,
        description: Some("greet the world".to_string()),
    });

    let output = convert_configuration(&config);
    let rules = &output.profiles[0].complex_modifications.rules;
    assert_eq!(rules[1].description, Some("greet the world".to_string()));
}

#[test]
fn base_layer_assignment_is_unguarded() {
    let mut config = empty_configuration();
    config.layer_assignments.assignments.push(LayerAssignment {
        layer: Layer {
            name: "base".to_string(),
            keys: vec![],
        },
        key: Key::H,
        action: Action::Command(Command {
            value: "hello".to_string(),
        }),
        next_layer: None,
        description: None,
    });

    let output = convert_configuration(&config);
    let rules = &output.profiles[0].complex_modifications.rules;
    assert_eq!(rules.len(), 1);
    assert_eq!(rules[0].manipulators[0].conditions, Some(vec![]));
}

#[test]
fn base_layer_declared_gets_no_activation_rule() {
    let mut config = empty_configuration();
    config.layers.layers.push(Layer {
        name: "base".to_string(),
        keys: vec![Key::A],
    });
    config.layers.layers.push(layer1());

    let output = convert_configuration(&config);
    let rules = &output.profiles[0].complex_modifications.rules;
    assert_eq!(rules.len(), 1);
    assert_eq!(rules[0].description, Some("Change to layer1".to_string()));
}

#[test]
fn activation_description_is_lowercased() {
    let rule = Rule::set_environment(
        "LAYER1".to_string(),
        Key::CapsLock.into(),
    );
    assert_eq!(rule.description, Some("Change to layer1".to_string()));
}

#[test]
fn replace_config_swaps_first_profile_rules() {
    let mut config = empty_configuration();
    config.layers.layers.push(layer1());
    let fresh = convert_configuration(&config);

    let mut existing_config = empty_configuration();
    existing_config.simple_remaps.remaps.push(SimpleRemap {
        from: Key::CapsLock,
        to: vec![Key::Escape],
    });
    let existing = convert_configuration(&existing_config);
    let existing_devices = existing.profiles[0].devices.clone();

    let merged = replace_config(existing, fresh.clone());

    assert_eq!(merged.profiles.len(), 1);
    assert_eq!(
        merged.profiles[0].complex_modifications,
        fresh.profiles[0].complex_modifications
    );
    assert_eq!(merged.profiles[0].devices, existing_devices);
    assert_eq!(merged.profiles[0].name, "Default");
}

#[test]
fn replace_config_without_profiles_keeps_existing() {
    let existing = Profiles { profiles: vec![] };
    let mut config = empty_configuration();
    config.layers.layers.push(layer1());
    let fresh = convert_configuration(&config);

    let merged = replace_config(existing, fresh);
    assert_eq!(merged.profiles.len(), 0);
}
