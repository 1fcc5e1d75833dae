//! The Layer Compiler: the pure lowering of a Configuration into the
//! Rule Model.
//!
//! For every declared layer except the base layer one activation rule
//! is emitted, then one rule per layer assignment, in source order;
//! every simple remap becomes one device-level modification.  The
//! result is a function of the configuration alone, so compiling the
//! same configuration twice yields the same Rule Model
//! (see [`lemma_convert_deterministic`]).

use vstd::prelude::*;

pub use crate::karabiner::BASE_LAYER;

use crate::configuration::{
    Action, ActionSpec, Command, Configuration, ConfigurationSpec, Layer, LayerAssignment,
    LayerAssignmentSpec, LayerSpec, SimpleRemap, SimpleRemapSpec, SimpleRemaps,
};
use crate::karabiner::{
    spec_condition_active, spec_rule_set_command, spec_rule_set_environment,
    spec_rule_set_keymapping, spec_rule_switch_layer, ComplexModifications,
    ComplexModificationsSpec, ConditionSpec, Device, DeviceIdentifiers, DeviceSpec,
    KeyMapping, KeyMappingSpec, Modifiers, ModifiersSpec, Profile, ProfileSpec, Profiles,
    ProfilesSpec, Rule, RuleSpec, ShellCommand, ShellCommandSpec, SimpleKeyMapping,
    SimpleKeyMappingSpec,
    SimpleModification, SimpleModificationSpec, ToKeyMapping, ToKeyMappingSpec,
};
use crate::keys::Key;
use crate::text::str_eq;

verus! {

/// The name of the profile that holds the compiled rules.
pub const DEFAULT_PROFILE_NAME: &'static str = "Default";

// ---------------------------------------------------------------------
// Key-sequence conversions
// ---------------------------------------------------------------------

/// The input combination of a key sequence: the first key is pressed
/// and the remaining keys are mandatory modifiers.  An empty sequence
/// yields the no-op key with no modifiers.
pub open spec fn spec_from_key_mapping(keys: Seq<Key>) -> KeyMappingSpec {
    if keys.len() == 0 {
        KeyMappingSpec { key_code: Key::VkNone, modifiers: None }
    } else if keys.len() == 1 {
        KeyMappingSpec { key_code: keys[0], modifiers: None }
    } else {
        KeyMappingSpec {
            key_code: keys[0],
            modifiers: Some(ModifiersSpec { mandatory: Some(keys.skip(1)), optional: None }),
        }
    }
}

/// The output combination of a key sequence: the first key is emitted
/// with the remaining keys as modifiers.  An empty sequence yields the
/// no-op key.
pub open spec fn spec_to_key_mapping(keys: Seq<Key>) -> ToKeyMappingSpec {
    if keys.len() == 0 {
        ToKeyMappingSpec { key_code: Key::VkNone, modifiers: seq![] }
    } else {
        ToKeyMappingSpec { key_code: keys[0], modifiers: keys.skip(1) }
    }
}

/// The input combination of a single key, with no modifiers.
pub open spec fn spec_single_key_mapping(key: Key) -> KeyMappingSpec {
    KeyMappingSpec { key_code: key, modifiers: None }
}

/// A copy of the tail of a key sequence.
fn tail_keys(keys: &Vec<Key>) -> (r: Vec<Key>)
    requires
        keys@.len() >= 1,
    ensures
        r@ == keys@.skip(1),
{
    let mut r: Vec<Key> = Vec::new();
    let mut i: usize = 1;
    while i < keys.len()
        invariant
            1 <= i <= keys@.len(),
            r@ =~= keys@.subrange(1, i as int),
        decreases keys@.len() - i,
    {
        r.push(keys[i]);
        i += 1;
    }
    proof {
        assert(r@ =~= keys@.skip(1));
    }
    r
}

impl KeyMapping {
    /// The input combination of a key sequence.
    pub fn from_keys(keys: &Vec<Key>) -> (r: KeyMapping)
        ensures
            r@ == spec_from_key_mapping(keys@),
    {
        if keys.len() == 0 {
            KeyMapping { key_code: Key::VkNone, modifiers: None }
        } else if keys.len() == 1 {
            KeyMapping { key_code: keys[0], modifiers: None }
        } else {
            let mandatory = tail_keys(keys);
            KeyMapping {
                key_code: keys[0],
                modifiers: Some(Modifiers { mandatory: Some(mandatory), optional: None }),
            }
        }
    }
}

impl ToKeyMapping {
    /// The output combination of a key sequence.
    pub fn from_keys(keys: &Vec<Key>) -> (r: ToKeyMapping)
        ensures
            r@ == spec_to_key_mapping(keys@),
    {
        if keys.len() == 0 {
            let modifiers: Vec<Key> = Vec::new();
            proof {
                assert(modifiers@ =~= Seq::<Key>::empty());
            }
            ToKeyMapping { key_code: Key::VkNone, modifiers }
        } else {
            ToKeyMapping { key_code: keys[0], modifiers: tail_keys(keys) }
        }
    }
}

impl From<Key> for SimpleKeyMapping {
    fn from(key: Key) -> (r: Self) {
        SimpleKeyMapping { key_code: key }
    }
}

impl vstd::std_specs::convert::FromSpecImpl<Key> for SimpleKeyMapping {
    open spec fn obeys_from_spec() -> bool {
        true
    }

    open spec fn from_spec(key: Key) -> Self {
        SimpleKeyMapping { key_code: key }
    }
}

impl From<Key> for Modifiers {
    fn from(key: Key) -> (r: Self) {
        Modifiers { mandatory: Some(vec![key]), optional: None }
    }
}

/// The freshly allocated list inside the result cannot be named by a
/// spec-level `from_spec`; [`KeyMapping::from_keys`] carries the exact
/// contract over views.
impl vstd::std_specs::convert::FromSpecImpl<Key> for Modifiers {
    open spec fn obeys_from_spec() -> bool {
        false
    }

    open spec fn from_spec(key: Key) -> Self {
        arbitrary()
    }
}

impl From<Key> for KeyMapping {
    fn from(key: Key) -> (r: Self) {
        KeyMapping { key_code: key, modifiers: None }
    }
}

impl vstd::std_specs::convert::FromSpecImpl<Key> for KeyMapping {
    open spec fn obeys_from_spec() -> bool {
        true
    }

    open spec fn from_spec(key: Key) -> Self {
        KeyMapping { key_code: key, modifiers: None }
    }
}

impl From<Vec<Key>> for KeyMapping {
    fn from(keys: Vec<Key>) -> (r: Self) {
        KeyMapping::from_keys(&keys)
    }
}

/// The freshly allocated list inside the result cannot be named by a
/// spec-level `from_spec`; [`KeyMapping::from_keys`] carries the exact
/// contract over views.
impl vstd::std_specs::convert::FromSpecImpl<Vec<Key>> for KeyMapping {
    open spec fn obeys_from_spec() -> bool {
        false
    }

    open spec fn from_spec(keys: Vec<Key>) -> Self {
        arbitrary()
    }
}

impl From<Vec<Key>> for ToKeyMapping {
    fn from(keys: Vec<Key>) -> (r: Self) {
        ToKeyMapping::from_keys(&keys)
    }
}

/// The freshly allocated list inside the result cannot be named by a
/// spec-level `from_spec`; [`ToKeyMapping::from_keys`] carries the
/// exact contract over views.
impl vstd::std_specs::convert::FromSpecImpl<Vec<Key>> for ToKeyMapping {
    open spec fn obeys_from_spec() -> bool {
        false
    }

    open spec fn from_spec(keys: Vec<Key>) -> Self {
        arbitrary()
    }
}

impl From<Command> for ShellCommand {
    fn from(command: Command) -> (r: Self) {
        ShellCommand { shell_command: command.value }
    }
}

impl vstd::std_specs::convert::FromSpecImpl<Command> for ShellCommand {
    open spec fn obeys_from_spec() -> bool {
        true
    }

    open spec fn from_spec(command: Command) -> Self {
        ShellCommand { shell_command: command.value }
    }
}

// ---------------------------------------------------------------------
// Lowering one layer, one assignment, one remap
// ---------------------------------------------------------------------

/// The activation rule of a layer: unguarded, triggered by the layer's
/// activation combination, setting the layer's variable to 1.
pub open spec fn spec_activation_rule(layer: LayerSpec) -> RuleSpec {
    spec_rule_set_environment(layer.name, spec_from_key_mapping(layer.keys))
}

/// The rule of one layer assignment, before the user's description is
/// applied: a guarded remap or command rule, or an unguarded immediate
/// layer switch.
pub open spec fn spec_assignment_rule_plain(a: LayerAssignmentSpec) -> RuleSpec {
    match a.action {
        ActionSpec::LayerRemap(to_keys) => spec_rule_set_keymapping(
            a.layer.name,
            spec_single_key_mapping(a.key),
            spec_to_key_mapping(to_keys),
            a.next_layer,
        ),
        ActionSpec::Command(command) => spec_rule_set_command(
            a.layer.name,
            spec_single_key_mapping(a.key),
            ShellCommandSpec { shell_command: command },
            a.next_layer,
        ),
        ActionSpec::LayerShift(target) => spec_rule_switch_layer(
            target,
            a.layer.name,
            spec_single_key_mapping(a.key),
        ),
    }
}

/// The rule of one layer assignment: an explicit user-supplied
/// description overrides the synthesized one.
pub open spec fn spec_assignment_rule(a: LayerAssignmentSpec) -> RuleSpec {
    let plain = spec_assignment_rule_plain(a);
    match a.description {
        Some(d) => RuleSpec { description: Some(d), ..plain },
        None => plain,
    }
}

/// The device-level modification of one simple remap.
pub open spec fn spec_simple_modification(remap: SimpleRemapSpec) -> SimpleModificationSpec {
    SimpleModificationSpec {
        from: SimpleKeyMappingSpec { key_code: remap.from },
        to: remap.to.map_values(|k: Key| SimpleKeyMappingSpec { key_code: k }),
    }
}

/// The activation rule of each non-base layer, in declaration order.
pub open spec fn spec_activation_rules(layers: Seq<LayerSpec>) -> Seq<RuleSpec>
    decreases layers.len(),
{
    if layers.len() == 0 {
        seq![]
    } else if layers[0].name == BASE_LAYER@ {
        spec_activation_rules(layers.skip(1))
    } else {
        seq![spec_activation_rule(layers[0])] + spec_activation_rules(layers.skip(1))
    }
}

/// The whole Rule Model of a configuration: activation rules, then
/// assignment rules, then one device with the simple modifications.
pub open spec fn spec_convert(c: ConfigurationSpec) -> ProfilesSpec {
    ProfilesSpec {
        profiles: seq![
            ProfileSpec {
                complex_modifications: ComplexModificationsSpec {
                    rules: spec_activation_rules(c.layers.layers)
                        + c.layer_assignments.assignments.map_values(
                        |a: LayerAssignmentSpec| spec_assignment_rule(a),
                    ),
                },
                devices: seq![
                    DeviceSpec {
                        identifiers: DeviceIdentifiers {
                            is_keyboard: true,
                            product_id: 0,
                            vendor_id: 0,
                        },
                        simple_modifications: c.simple_remaps.remaps.map_values(
                            |m: SimpleRemapSpec| spec_simple_modification(m),
                        ),
                    },
                ],
                name: "Default"@,
                selected: true,
            },
        ],
    }
}

/// The activation rule of one layer.
pub fn layer_to_rule(layer: Layer) -> (r: Rule)
    ensures
        r@ == spec_activation_rule(layer@),
{
    let from = KeyMapping::from_keys(&layer.keys);
    Rule::set_environment(layer.name, from)
}

/// The rule of one layer assignment.
pub fn layer_assignment_to_rule(layer_assignment: LayerAssignment) -> (r: Rule)
    ensures
        r@ == spec_assignment_rule(layer_assignment@),
{
    let ghost a = layer_assignment@;
    let key_mapping = KeyMapping { key_code: layer_assignment.key, modifiers: None };
    let mut rule = match layer_assignment.action {
        Action::LayerRemap(remaps) => Rule::set_keymapping_in_layer(
            layer_assignment.layer.name,
            key_mapping,
            ToKeyMapping::from_keys(&remaps.to),
            layer_assignment.next_layer,
        ),
        Action::Command(command) => Rule::set_command_in_layer(
            layer_assignment.layer.name,
            key_mapping,
            ShellCommand { shell_command: command.value },
            layer_assignment.next_layer,
        ),
        Action::LayerShift(shift) => Rule::switch_layer(
            shift.move_layer,
            layer_assignment.layer.name,
            key_mapping,
        ),
    };
    proof {
        assert(rule@ == spec_assignment_rule_plain(a));
    }
    match layer_assignment.description {
        Some(description) => {
            rule.description = Some(description);
            proof {
                assert(rule@ =~~= spec_assignment_rule(a));
            }
        },
        None => {},
    }
    rule
}

/// The device-level modification of one simple remap.
fn remap_to_simple_modification(remap: SimpleRemap) -> (r: SimpleModification)
    ensures
        r@ == spec_simple_modification(remap@),
{
    let mut to: Vec<SimpleKeyMapping> = Vec::new();
    let mut i: usize = 0;
    while i < remap.to.len()
        invariant
            i <= remap.to@.len(),
            to@.map_values(|k: SimpleKeyMapping| k@) =~= remap.to@.subrange(0, i as int)
                .map_values(|k: Key| SimpleKeyMappingSpec { key_code: k }),
        decreases remap.to@.len() - i,
    {
        let ghost old_to = to@;
        to.push(SimpleKeyMapping { key_code: remap.to[i] });
        proof {
            assert(to@.map_values(|k: SimpleKeyMapping| k@) =~= old_to.map_values(
                |k: SimpleKeyMapping| k@,
            ) + seq![SimpleKeyMappingSpec { key_code: remap.to@[i as int] }]);
            assert(remap.to@.subrange(0, i as int + 1).map_values(
                |k: Key| SimpleKeyMappingSpec { key_code: k },
            ) =~= remap.to@.subrange(0, i as int).map_values(
                |k: Key| SimpleKeyMappingSpec { key_code: k },
            ) + seq![SimpleKeyMappingSpec { key_code: remap.to@[i as int] }]);
        }
        i += 1;
    }
    let r = SimpleModification { from: SimpleKeyMapping { key_code: remap.from }, to };
    proof {
        assert(remap.to@.subrange(0, remap.to@.len() as int) =~= remap.to@);
        assert(r@ =~~= spec_simple_modification(remap@));
    }
    r
}

/// The device-level modifications of all simple remaps, in order.
pub fn remaps_to_simple_modifications(remaps: SimpleRemaps) -> (r: Vec<SimpleModification>)
    ensures
        r@.map_values(|m: SimpleModification| m@) == remaps@.remaps.map_values(
            |m: SimpleRemapSpec| spec_simple_modification(m),
        ),
{
    let mut mods: Vec<SimpleModification> = Vec::new();
    let mut i: usize = 0;
    while i < remaps.remaps.len()
        invariant
            i <= remaps.remaps@.len(),
            mods@.map_values(|m: SimpleModification| m@) =~= remaps.remaps@.subrange(0, i as int)
                .map_values(|m: SimpleRemap| m@).map_values(
                |m: SimpleRemapSpec| spec_simple_modification(m),
            ),
        decreases remaps.remaps@.len() - i,
    {
        let ghost old_mods = mods@;
        mods.push(remap_to_simple_modification(remaps.remaps[i].duplicate()));
        proof {
            assert(mods@.map_values(|m: SimpleModification| m@) =~= old_mods.map_values(
                |m: SimpleModification| m@,
            ) + seq![spec_simple_modification(remaps.remaps@[i as int]@)]);
            assert(remaps.remaps@.subrange(0, i as int + 1).map_values(|m: SimpleRemap| m@)
                =~= remaps.remaps@.subrange(0, i as int).map_values(|m: SimpleRemap| m@) + seq![
                remaps.remaps@[i as int]@,
            ]);
            assert(remaps.remaps@.subrange(0, i as int + 1).map_values(|m: SimpleRemap| m@)
                .map_values(|m: SimpleRemapSpec| spec_simple_modification(m)) =~= remaps.remaps@
                .subrange(0, i as int).map_values(|m: SimpleRemap| m@).map_values(
                |m: SimpleRemapSpec| spec_simple_modification(m),
            ) + seq![spec_simple_modification(remaps.remaps@[i as int]@)]);
        }
        i += 1;
    }
    proof {
        assert(remaps.remaps@.subrange(0, remaps.remaps@.len() as int) =~= remaps.remaps@);
        assert(mods@.map_values(|m: SimpleModification| m@) =~= remaps@.remaps.map_values(
            |m: SimpleRemapSpec| spec_simple_modification(m),
        ));
    }
    mods
}

/// Compiles a configuration into the Rule Model: the activation rule
/// of every non-base layer, then one rule per assignment, in source
/// order, and one device holding the simple modifications — all in a
/// single selected profile.
pub fn convert_configuration(configuration: &Configuration) -> (r: Profiles)
    ensures
        r@ == spec_convert(configuration@),
{
    let layers = &configuration.layers.layers;
    let mut layer_rules: Vec<Rule> = Vec::new();
    let mut i: usize = 0;
    proof {
        assert(layers@.map_values(|l: Layer| l@).skip(0) =~= layers@.map_values(|l: Layer| l@));
    }
    while i < layers.len()
        invariant
            i <= layers@.len(),
            layers@.map_values(|l: Layer| l@).len() == layers@.len(),
            spec_activation_rules(layers@.map_values(|l: Layer| l@)) == layer_rules@.map_values(
                |r: Rule| r@,
            ) + spec_activation_rules(layers@.map_values(|l: Layer| l@).skip(i as int)),
        decreases layers@.len() - i,
    {
        proof {
            assert(layers@.map_values(|l: Layer| l@).skip(i as int)[0] == layers@.map_values(
                |l: Layer| l@,
            )[i as int]);
            assert(layers@.map_values(|l: Layer| l@).skip(i as int).skip(1) =~= layers@
                .map_values(|l: Layer| l@).skip(i as int + 1));
        }
        if !str_eq(layers[i].name.as_str(), BASE_LAYER) {
            let ghost old_rules = layer_rules@;
            layer_rules.push(layer_to_rule(layers[i].duplicate()));
            proof {
                assert(layer_rules@.map_values(|r: Rule| r@) =~= old_rules.map_values(
                    |r: Rule| r@,
                ) + seq![spec_activation_rule(layers@.map_values(|l: Layer| l@)[i as int])]);
                assert(old_rules.map_values(|r: Rule| r@) + (seq![
                    spec_activation_rule(layers@.map_values(|l: Layer| l@)[i as int]),
                ] + spec_activation_rules(layers@.map_values(|l: Layer| l@).skip(i as int + 1)))
                    =~= layer_rules@.map_values(|r: Rule| r@) + spec_activation_rules(
                    layers@.map_values(|l: Layer| l@).skip(i as int + 1),
                ));
            }
        }
        i += 1;
    }
    proof {
        assert(layers@.map_values(|l: Layer| l@).skip(layers@.len() as int) =~= Seq::<
            LayerSpec,
        >::empty());
        assert(layer_rules@.map_values(|r: Rule| r@) + Seq::<RuleSpec>::empty() =~= layer_rules@
            .map_values(|r: Rule| r@));
    }
    let assignments = &configuration.layer_assignments.assignments;
    let mut j: usize = 0;
    while j < assignments.len()
        invariant
            j <= assignments@.len(),
            layer_rules@.map_values(|r: Rule| r@) =~= spec_activation_rules(
                configuration.layers.layers@.map_values(|l: Layer| l@),
            ) + assignments@.subrange(0, j as int).map_values(|a: LayerAssignment| a@).map_values(
                |a: LayerAssignmentSpec| spec_assignment_rule(a),
            ),
        decreases assignments@.len() - j,
    {
        let ghost old_rules = layer_rules@;
        layer_rules.push(layer_assignment_to_rule(assignments[j].duplicate()));
        proof {
            assert(layer_rules@.map_values(|r: Rule| r@) =~= old_rules.map_values(|r: Rule| r@)
                + seq![spec_assignment_rule(assignments@[j as int]@)]);
            assert(assignments@.subrange(0, j as int + 1).map_values(|a: LayerAssignment| a@)
                =~= assignments@.subrange(0, j as int).map_values(|a: LayerAssignment| a@) + seq![
                assignments@[j as int]@,
            ]);
            assert(assignments@.subrange(0, j as int + 1).map_values(|a: LayerAssignment| a@)
                .map_values(|a: LayerAssignmentSpec| spec_assignment_rule(a)) =~= assignments@
                .subrange(0, j as int).map_values(|a: LayerAssignment| a@).map_values(
                |a: LayerAssignmentSpec| spec_assignment_rule(a),
            ) + seq![spec_assignment_rule(assignments@[j as int]@)]);
        }
        j += 1;
    }
    proof {
        assert(assignments@.subrange(0, assignments@.len() as int) =~= assignments@);
    }
    let complex_modifications = ComplexModifications { rules: layer_rules };
    let devices = vec![
        Device {
            identifiers: DeviceIdentifiers::default(),
            simple_modifications: remaps_to_simple_modifications(
                configuration.simple_remaps.duplicate(),
            ),
        },
    ];
    let name = DEFAULT_PROFILE_NAME.to_owned();
    let selected = true;
    let r = Profiles {
        profiles: vec![Profile { complex_modifications, devices, name, selected }],
    };
    proof {
        assert(r@ =~~= spec_convert(configuration@));
    }
    r
}

/// Guard correctness: the rule of a command or remap assignment has
/// exactly one manipulator; in a non-base layer that manipulator
/// carries exactly one condition, requiring the layer's variable to
/// equal 1, and in the base layer it carries none.  (A layer-shift
/// rule is deliberately unguarded, like an activation rule: a shift
/// is available from any layer.)
pub proof fn lemma_assignment_guard(a: LayerAssignmentSpec)
    requires
        a.action is Command || a.action is LayerRemap,
    ensures
        spec_assignment_rule(a).manipulators.len() == 1,
        a.layer.name != BASE_LAYER@ ==> spec_assignment_rule(a).manipulators[0].conditions
            == Some(seq![spec_condition_active(a.layer.name)]),
        a.layer.name == BASE_LAYER@ ==> spec_assignment_rule(a).manipulators[0].conditions
            == Some(Seq::<ConditionSpec>::empty()),
{
}

/// Activation rules are unguarded: the activation combination works
/// from any layer, so the rule of a layer carries an empty condition
/// list.
pub proof fn lemma_activation_unguarded(layer: LayerSpec)
    ensures
        spec_activation_rule(layer).manipulators.len() == 1,
        spec_activation_rule(layer).manipulators[0].conditions == Some(
            Seq::<ConditionSpec>::empty(),
        ),
{
}

/// Compiling a configuration is deterministic: the Rule Model is a
/// function of the configuration alone, so equal configurations
/// compile to the same output.
pub proof fn lemma_convert_deterministic(c1: ConfigurationSpec, c2: ConfigurationSpec)
    requires
        c1 == c2,
    ensures
        spec_convert(c1) == spec_convert(c2),
{
}

} // verus!
