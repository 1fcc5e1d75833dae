//! The Rule Model: the target engine's schema of profiles, rules,
//! manipulators, conditions, delayed actions and device-level simple
//! modifications, together with the constructors that the layer
//! compiler uses to emit rules.
//!
//! Layer state is carried by hidden boolean variables, one per non-base
//! layer: a variable equal to 1 means "this layer is active", and every
//! write the compiler emits sets a variable to 0 or 1 and nothing else.

use vstd::prelude::*;

use crate::keys::{token_of_key, Key};
use crate::text::{lower_of, str_eq, to_lowercase};

verus! {

/// The reserved name of the base layer.  The base layer has no state
/// variable: it is active exactly when no other layer's variable is 1.
pub const BASE_LAYER: &'static str = "base";

// ---------------------------------------------------------------------
// The data model and its mathematical view
// ---------------------------------------------------------------------

#[derive(Debug, Clone, PartialEq, Eq)]
pub struct Profiles {
    pub profiles: Vec<Profile>,
}

#[verifier::ext_equal]
pub struct ProfilesSpec {
    pub profiles: Seq<ProfileSpec>,
}

impl View for Profiles {
    type V = ProfilesSpec;

    open spec fn view(&self) -> ProfilesSpec {
        ProfilesSpec { profiles: self.profiles@.map_values(|p: Profile| p@) }
    }
}

#[derive(Debug, Clone, PartialEq, Eq)]
pub struct Profile {
    pub complex_modifications: ComplexModifications,
    pub devices: Vec<Device>,
    pub name: String,
    pub selected: bool,
}

#[verifier::ext_equal]
pub struct ProfileSpec {
    pub complex_modifications: ComplexModificationsSpec,
    pub devices: Seq<DeviceSpec>,
    pub name: Seq<char>,
    pub selected: bool,
}

impl View for Profile {
    type V = ProfileSpec;

    open spec fn view(&self) -> ProfileSpec {
        ProfileSpec {
            complex_modifications: self.complex_modifications@,
            devices: self.devices@.map_values(|d: Device| d@),
            name: self.name@,
            selected: self.selected,
        }
    }
}

#[derive(Debug, Clone, PartialEq, Eq)]
pub struct ComplexModifications {
    pub rules: Vec<Rule>,
}

#[verifier::ext_equal]
pub struct ComplexModificationsSpec {
    pub rules: Seq<RuleSpec>,
}

impl View for ComplexModifications {
    type V = ComplexModificationsSpec;

    open spec fn view(&self) -> ComplexModificationsSpec {
        ComplexModificationsSpec { rules: self.rules@.map_values(|r: Rule| r@) }
    }
}

#[derive(Debug, Clone, PartialEq, Eq)]
pub struct Rule {
    pub description: Option<String>,
    pub enabled: bool,
    pub manipulators: Vec<Manipulator>,
}

#[verifier::ext_equal]
pub struct RuleSpec {
    pub description: Option<Seq<char>>,
    pub enabled: bool,
    pub manipulators: Seq<ManipulatorSpec>,
}

impl View for Rule {
    type V = RuleSpec;

    open spec fn view(&self) -> RuleSpec {
        RuleSpec {
            description: match self.description {
                Some(d) => Some(d@),
                None => None,
            },
            enabled: self.enabled,
            manipulators: self.manipulators@.map_values(|m: Manipulator| m@),
        }
    }
}

#[derive(Debug, Clone, PartialEq, Eq)]
pub struct Manipulator {
    pub conditions: Option<Vec<Condition>>,
    pub from: KeyMapping,
    pub to: Option<Vec<ManipulationTarget>>,
    pub to_delayed_action: Option<DelayedAction>,
    pub to_after_key_up: Option<Vec<ManipulationTarget>>,
    pub to_if_alone: Option<Vec<KeyMapping>>,
    pub manipulator_type: String,
}

#[verifier::ext_equal]
pub struct ManipulatorSpec {
    pub conditions: Option<Seq<ConditionSpec>>,
    pub from: KeyMappingSpec,
    pub to: Option<Seq<ManipulationTargetSpec>>,
    pub to_delayed_action: Option<DelayedActionSpec>,
    pub to_after_key_up: Option<Seq<ManipulationTargetSpec>>,
    pub to_if_alone: Option<Seq<KeyMappingSpec>>,
    pub manipulator_type: Seq<char>,
}

impl View for Manipulator {
    type V = ManipulatorSpec;

    open spec fn view(&self) -> ManipulatorSpec {
        ManipulatorSpec {
            conditions: match self.conditions {
                Some(cs) => Some(cs@.map_values(|c: Condition| c@)),
                None => None,
            },
            from: self.from@,
            to: match self.to {
                Some(ts) => Some(ts@.map_values(|t: ManipulationTarget| t@)),
                None => None,
            },
            to_delayed_action: match self.to_delayed_action {
                Some(d) => Some(d@),
                None => None,
            },
            to_after_key_up: match self.to_after_key_up {
                Some(ts) => Some(ts@.map_values(|t: ManipulationTarget| t@)),
                None => None,
            },
            to_if_alone: match self.to_if_alone {
                Some(ks) => Some(ks@.map_values(|k: KeyMapping| k@)),
                None => None,
            },
            manipulator_type: self.manipulator_type@,
        }
    }
}

/// A guard on a rule: the named state variable must currently hold
/// `value` for the rule to apply.
#[derive(Debug, Clone, PartialEq, Eq)]
pub struct Condition {
    pub name: String,
    pub condition_type: String,
    pub value: i32,
}

#[verifier::ext_equal]
pub struct ConditionSpec {
    pub name: Seq<char>,
    pub condition_type: Seq<char>,
    pub value: int,
}

impl View for Condition {
    type V = ConditionSpec;

    open spec fn view(&self) -> ConditionSpec {
        ConditionSpec {
            name: self.name@,
            condition_type: self.condition_type@,
            value: self.value as int,
        }
    }
}

#[derive(Debug, Clone, PartialEq, Eq)]
pub struct SimpleKeyMapping {
    pub key_code: Key,
}

#[verifier::ext_equal]
pub struct SimpleKeyMappingSpec {
    pub key_code: Key,
}

impl View for SimpleKeyMapping {
    type V = SimpleKeyMappingSpec;

    open spec fn view(&self) -> SimpleKeyMappingSpec {
        SimpleKeyMappingSpec { key_code: self.key_code }
    }
}

#[derive(Debug, Clone, PartialEq, Eq)]
pub struct Modifiers {
    pub mandatory: Option<Vec<Key>>,
    pub optional: Option<Vec<Key>>,
}

#[verifier::ext_equal]
pub struct ModifiersSpec {
    pub mandatory: Option<Seq<Key>>,
    pub optional: Option<Seq<Key>>,
}

impl View for Modifiers {
    type V = ModifiersSpec;

    open spec fn view(&self) -> ModifiersSpec {
        ModifiersSpec {
            mandatory: match self.mandatory {
                Some(ks) => Some(ks@),
                None => None,
            },
            optional: match self.optional {
                Some(ks) => Some(ks@),
                None => None,
            },
        }
    }
}

/// An input key combination: the pressed key plus the modifiers that
/// must be held with it.
#[derive(Debug, Clone, PartialEq, Eq)]
pub struct KeyMapping {
    pub key_code: Key,
    pub modifiers: Option<Modifiers>,
}

#[verifier::ext_equal]
pub struct KeyMappingSpec {
    pub key_code: Key,
    pub modifiers: Option<ModifiersSpec>,
}

impl View for KeyMapping {
    type V = KeyMappingSpec;

    open spec fn view(&self) -> KeyMappingSpec {
        KeyMappingSpec {
            key_code: self.key_code,
            modifiers: match self.modifiers {
                Some(m) => Some(m@),
                None => None,
            },
        }
    }
}

/// A `KeyMapping` in `from` position.
pub type FromKeyMapping = KeyMapping;

/// An output key combination: the emitted key plus the modifiers
/// emitted with it.
#[derive(Debug, Clone, PartialEq, Eq)]
pub struct ToKeyMapping {
    pub key_code: Key,
    pub modifiers: Vec<Key>,
}

#[verifier::ext_equal]
pub struct ToKeyMappingSpec {
    pub key_code: Key,
    pub modifiers: Seq<Key>,
}

impl View for ToKeyMapping {
    type V = ToKeyMappingSpec;

    open spec fn view(&self) -> ToKeyMappingSpec {
        ToKeyMappingSpec { key_code: self.key_code, modifiers: self.modifiers@ }
    }
}

#[derive(Debug, Clone, PartialEq, Eq)]
pub struct SetVariableValues {
    pub name: String,
    pub value: i32,
}

#[derive(Debug, Clone, PartialEq, Eq)]
pub struct SetVariable {
    set_variable: SetVariableValues,
}

/// A write of a state variable: `name` is set to `value`.
#[verifier::ext_equal]
pub struct SetVariableSpec {
    pub name: Seq<char>,
    pub value: int,
}

impl View for SetVariable {
    type V = SetVariableSpec;

    closed spec fn view(&self) -> SetVariableSpec {
        SetVariableSpec {
            name: self.set_variable.name@,
            value: self.set_variable.value as int,
        }
    }
}

impl SetVariable {
    pub fn new(name: String, value: i32) -> (r: Self)
        ensures
            r@ == (SetVariableSpec { name: name@, value: value as int }),
    {
        SetVariable { set_variable: SetVariableValues { name, value } }
    }

    /// The written variable's name.
    pub fn name(&self) -> (r: &String)
        ensures
            r@ == self@.name,
    {
        &self.set_variable.name
    }

    /// The written value.
    pub fn value(&self) -> (r: i32)
        ensures
            r as int == self@.value,
    {
        self.set_variable.value
    }
}

#[derive(Debug, Clone, PartialEq, Eq)]
pub struct ShellCommand {
    pub shell_command: String,
}

#[verifier::ext_equal]
pub struct ShellCommandSpec {
    pub shell_command: Seq<char>,
}

impl View for ShellCommand {
    type V = ShellCommandSpec;

    open spec fn view(&self) -> ShellCommandSpec {
        ShellCommandSpec { shell_command: self.shell_command@ }
    }
}

/// One entry of a manipulator's `to` list: emit a key combination, run
/// a shell command, or write a state variable.
#[derive(Debug, Clone, PartialEq, Eq)]
pub enum ManipulationTarget {
    KeyMapping(ToKeyMapping),
    SetVariable(SetVariable),
    ShellCommand(ShellCommand),
}

#[verifier::ext_equal]
pub enum ManipulationTargetSpec {
    KeyMapping(ToKeyMappingSpec),
    SetVariable(SetVariableSpec),
    ShellCommand(ShellCommandSpec),
}

impl View for ManipulationTarget {
    type V = ManipulationTargetSpec;

    open spec fn view(&self) -> ManipulationTargetSpec {
        match self {
            ManipulationTarget::KeyMapping(k) => ManipulationTargetSpec::KeyMapping(k@),
            ManipulationTarget::SetVariable(v) => ManipulationTargetSpec::SetVariable(v@),
            ManipulationTarget::ShellCommand(c) => ManipulationTargetSpec::ShellCommand(c@),
        }
    }
}

pub open spec fn spec_set_variable(name: Seq<char>, value: int) -> SetVariableSpec {
    SetVariableSpec { name, value }
}

/// The variable write that activates the named layer.
pub open spec fn spec_set_active(name: Seq<char>) -> ManipulationTargetSpec {
    ManipulationTargetSpec::SetVariable(spec_set_variable(name, 1))
}

/// The variable write that deactivates the named layer.
pub open spec fn spec_set_inactive(name: Seq<char>) -> ManipulationTargetSpec {
    ManipulationTargetSpec::SetVariable(spec_set_variable(name, 0))
}

impl ManipulationTarget {
    pub fn set_active(name: String) -> (r: Self)
        ensures
            r@ == spec_set_active(name@),
    {
        ManipulationTarget::SetVariable(SetVariable::new(name, 1))
    }

    pub fn set_inactive(name: String) -> (r: Self)
        ensures
            r@ == spec_set_inactive(name@),
    {
        ManipulationTarget::SetVariable(SetVariable::new(name, 0))
    }
}

/// Variable writes attached to a binding, applied when the binding's
/// action is invoked or canceled.
#[derive(Debug, Clone, PartialEq, Eq)]
pub struct DelayedAction {
    pub to_if_canceled: Vec<SetVariable>,
    pub to_if_invoked: Vec<SetVariable>,
}

#[verifier::ext_equal]
pub struct DelayedActionSpec {
    pub to_if_canceled: Seq<SetVariableSpec>,
    pub to_if_invoked: Seq<SetVariableSpec>,
}

impl View for DelayedAction {
    type V = DelayedActionSpec;

    open spec fn view(&self) -> DelayedActionSpec {
        DelayedActionSpec {
            to_if_canceled: self.to_if_canceled@.map_values(|v: SetVariable| v@),
            to_if_invoked: self.to_if_invoked@.map_values(|v: SetVariable| v@),
        }
    }
}

#[derive(Debug, Clone, PartialEq, Eq)]
pub struct Device {
    pub identifiers: DeviceIdentifiers,
    pub simple_modifications: Vec<SimpleModification>,
}

#[verifier::ext_equal]
pub struct DeviceSpec {
    pub identifiers: DeviceIdentifiers,
    pub simple_modifications: Seq<SimpleModificationSpec>,
}

impl View for Device {
    type V = DeviceSpec;

    open spec fn view(&self) -> DeviceSpec {
        DeviceSpec {
            identifiers: self.identifiers,
            simple_modifications: self.simple_modifications@.map_values(
                |m: SimpleModification| m@,
            ),
        }
    }
}

#[derive(Debug, Clone, Copy, PartialEq, Eq, Structural)]
pub struct DeviceIdentifiers {
    pub is_keyboard: bool,
    pub product_id: u16,
    pub vendor_id: u16,
}

impl Default for DeviceIdentifiers {
    fn default() -> (r: Self)
        ensures
            r == (DeviceIdentifiers { is_keyboard: true, product_id: 0, vendor_id: 0 }),
    {
        DeviceIdentifiers { is_keyboard: true, product_id: 0, vendor_id: 0 }
    }
}

/// One unconditional device-level key substitution.
#[derive(Debug, Clone, PartialEq, Eq)]
pub struct SimpleModification {
    pub from: SimpleKeyMapping,
    pub to: Vec<SimpleKeyMapping>,
}

#[verifier::ext_equal]
pub struct SimpleModificationSpec {
    pub from: SimpleKeyMappingSpec,
    pub to: Seq<SimpleKeyMappingSpec>,
}

impl View for SimpleModification {
    type V = SimpleModificationSpec;

    open spec fn view(&self) -> SimpleModificationSpec {
        SimpleModificationSpec {
            from: self.from@,
            to: self.to@.map_values(|k: SimpleKeyMapping| k@),
        }
    }
}

// ---------------------------------------------------------------------
// Conditions
// ---------------------------------------------------------------------

/// The guard "the named layer's variable is 1".
pub open spec fn spec_condition_active(name: Seq<char>) -> ConditionSpec {
    ConditionSpec { name, condition_type: "variable_if"@, value: 1 }
}

/// The guard "the named layer's variable is 0".
pub open spec fn spec_condition_inactive(name: Seq<char>) -> ConditionSpec {
    ConditionSpec { name, condition_type: "variable_if"@, value: 0 }
}

impl Condition {
    pub fn active(name: String) -> (r: Self)
        ensures
            r@ == spec_condition_active(name@),
    {
        Condition { name, condition_type: "variable_if".to_owned(), value: 1 }
    }

    pub fn inactive(name: String) -> (r: Self)
        ensures
            r@ == spec_condition_inactive(name@),
    {
        Condition { name, condition_type: "variable_if".to_owned(), value: 0 }
    }
}

/// The guard of an assignment rule: the layer's variable must be 1,
/// except for the base layer, which has no variable and is the default
/// state — its assignments carry no condition.
pub open spec fn spec_layer_guard(layer: Seq<char>) -> Option<Seq<ConditionSpec>> {
    if layer == BASE_LAYER@ {
        Some(seq![])
    } else {
        Some(seq![spec_condition_active(layer)])
    }
}

/// The guard of an assignment rule, as a condition list.
fn layer_guard(layer: &String) -> (r: Option<Vec<Condition>>)
    ensures
        (match r {
            Some(cs) => Some(cs@.map_values(|c: Condition| c@)),
            None => None,
        }) == spec_layer_guard(layer@),
{
    if str_eq(layer.as_str(), BASE_LAYER) {
        let cs: Vec<Condition> = Vec::new();
        proof {
            assert(cs@.map_values(|c: Condition| c@) =~= Seq::<ConditionSpec>::empty());
        }
        Some(cs)
    } else {
        let cs = vec![Condition::active(layer.clone())];
        proof {
            assert(cs@.map_values(|c: Condition| c@) =~= seq![spec_condition_active(layer@)]);
        }
        Some(cs)
    }
}

// ---------------------------------------------------------------------
// Delayed layer transitions
// ---------------------------------------------------------------------

/// The delayed variable writes that move from `source_layer` to
/// `target_layer` once a binding's action resolves: the destination is
/// activated before the source is deactivated, so a reader of the
/// sequential writes never observes "no layer active"; moving to the
/// base layer needs no activation write at all.
pub open spec fn spec_delayed_set_layer(
    target_layer: Seq<char>,
    source_layer: Seq<char>,
) -> DelayedActionSpec {
    DelayedActionSpec {
        to_if_canceled: seq![],
        to_if_invoked: if target_layer == BASE_LAYER@ {
            seq![spec_set_variable(source_layer, 0)]
        } else {
            seq![spec_set_variable(target_layer, 1), spec_set_variable(source_layer, 0)]
        },
    }
}

impl DelayedAction {
    fn set_layer(target_layer: String, source_layer: String) -> (r: Self)
        ensures
            r@ == spec_delayed_set_layer(target_layer@, source_layer@),
    {
        let mut actions: Vec<SetVariable> = Vec::new();
        if !str_eq(target_layer.as_str(), BASE_LAYER) {
            actions.push(SetVariable::new(target_layer, 1));
        }
        actions.push(SetVariable::new(source_layer, 0));
        let r = DelayedAction { to_if_canceled: Vec::new(), to_if_invoked: actions };
        proof {
            assert(r@ =~~= spec_delayed_set_layer(target_layer@, source_layer@));
        }
        r
    }
}

/// The delayed action for an optional destination layer: none when the
/// binding names no destination, so the source layer stays active.
pub open spec fn spec_set_target_layer(
    target_layer: Option<Seq<char>>,
    source_layer: Seq<char>,
) -> Option<DelayedActionSpec> {
    match target_layer {
        None => None,
        Some(layer) => Some(spec_delayed_set_layer(layer, source_layer)),
    }
}

fn set_target_layer(target_layer: Option<String>, source_layer: String) -> (r: Option<
    DelayedAction,
>)
    ensures
        (match r {
            None => Option::<DelayedActionSpec>::None,
            Some(d) => Some(d@),
        }) == spec_set_target_layer(
            match target_layer {
                None => None,
                Some(l) => Some(l@),
            },
            source_layer@,
        ),
{
    match target_layer {
        None => None,
        Some(layer) => Some(DelayedAction::set_layer(layer, source_layer)),
    }
}

// ---------------------------------------------------------------------
// Manipulators
// ---------------------------------------------------------------------

/// The unguarded manipulator that activates the named layer when its
/// activation combination is pressed.
pub open spec fn spec_manipulator_set_environment(
    name: Seq<char>,
    from: KeyMappingSpec,
) -> ManipulatorSpec {
    ManipulatorSpec {
        conditions: Some(seq![]),
        from,
        to: Some(seq![spec_set_active(name)]),
        to_delayed_action: None,
        to_after_key_up: None,
        to_if_alone: None,
        manipulator_type: "basic"@,
    }
}

/// The guarded manipulator that, while `layer` is active, replaces
/// `from` with the `to` combination, with an optional delayed move to
/// `target_layer`.
pub open spec fn spec_manipulator_set_keymapping(
    layer: Seq<char>,
    from: KeyMappingSpec,
    to: ToKeyMappingSpec,
    target_layer: Option<Seq<char>>,
) -> ManipulatorSpec {
    ManipulatorSpec {
        conditions: spec_layer_guard(layer),
        from,
        to: Some(seq![ManipulationTargetSpec::KeyMapping(to)]),
        to_delayed_action: spec_set_target_layer(target_layer, layer),
        to_after_key_up: None,
        to_if_alone: None,
        manipulator_type: "basic"@,
    }
}

/// The guarded manipulator that, while `layer` is active, runs the
/// shell command `to` when `from` is pressed, with an optional delayed
/// move to `target_layer`.
pub open spec fn spec_manipulator_set_command(
    layer: Seq<char>,
    from: KeyMappingSpec,
    to: ShellCommandSpec,
    target_layer: Option<Seq<char>>,
) -> ManipulatorSpec {
    ManipulatorSpec {
        conditions: spec_layer_guard(layer),
        from,
        to: Some(seq![ManipulationTargetSpec::ShellCommand(to)]),
        to_delayed_action: spec_set_target_layer(target_layer, layer),
        to_after_key_up: None,
        to_if_alone: None,
        manipulator_type: "basic"@,
    }
}

/// The unguarded manipulator that switches layers immediately: the
/// destination's variable is activated, then the source's deactivated.
pub open spec fn spec_manipulator_switch_layer(
    target_layer: Seq<char>,
    source_layer: Seq<char>,
    from: KeyMappingSpec,
) -> ManipulatorSpec {
    ManipulatorSpec {
        conditions: Some(seq![]),
        from,
        to: Some(seq![spec_set_active(target_layer), spec_set_inactive(source_layer)]),
        to_delayed_action: None,
        to_after_key_up: None,
        to_if_alone: None,
        manipulator_type: "basic"@,
    }
}

impl Manipulator {
    pub fn set_environment(name: String, from: KeyMapping) -> (r: Self)
        ensures
            r@ == spec_manipulator_set_environment(name@, from@),
    {
        let ghost name_view = name@;
        let ghost from_view = from@;
        let r = Manipulator {
            conditions: Some(Vec::new()),
            from,
            to: Some(vec![ManipulationTarget::set_active(name)]),
            to_delayed_action: None,
            to_after_key_up: None,
            to_if_alone: None,
            manipulator_type: "basic".to_owned(),
        };
        proof {
            assert(r@ =~~= spec_manipulator_set_environment(name_view, from_view));
        }
        r
    }

    pub fn set_keymapping_in_layer(
        layer: String,
        from: KeyMapping,
        to: ToKeyMapping,
        target_layer: Option<String>,
    ) -> (r: Self)
        ensures
            r@ == spec_manipulator_set_keymapping(
                layer@,
                from@,
                to@,
                match target_layer {
                    None => None,
                    Some(l) => Some(l@),
                },
            ),
    {
        let ghost layer_view = layer@;
        let ghost from_view = from@;
        let ghost to_view = to@;
        let ghost target_view: Option<Seq<char>> = match &target_layer {
            None => None,
            Some(l) => Some(l@),
        };
        let conditions = layer_guard(&layer);
        let r = Manipulator {
            conditions,
            from,
            to: Some(vec![ManipulationTarget::KeyMapping(to)]),
            to_delayed_action: set_target_layer(target_layer, layer),
            to_after_key_up: None,
            to_if_alone: None,
            manipulator_type: "basic".to_owned(),
        };
        proof {
            assert(r@ =~~= spec_manipulator_set_keymapping(
                layer_view,
                from_view,
                to_view,
                target_view,
            ));
        }
        r
    }

    pub fn set_command_in_layer(
        layer: String,
        from: KeyMapping,
        to: ShellCommand,
        target_layer: Option<String>,
    ) -> (r: Self)
        ensures
            r@ == spec_manipulator_set_command(
                layer@,
                from@,
                to@,
                match target_layer {
                    None => None,
                    Some(l) => Some(l@),
                },
            ),
    {
        let ghost layer_view = layer@;
        let ghost from_view = from@;
        let ghost to_view = to@;
        let ghost target_view: Option<Seq<char>> = match &target_layer {
            None => None,
            Some(l) => Some(l@),
        };
        let conditions = layer_guard(&layer);
        let r = Manipulator {
            conditions,
            from,
            to: Some(vec![ManipulationTarget::ShellCommand(to)]),
            to_delayed_action: set_target_layer(target_layer, layer),
            to_after_key_up: None,
            to_if_alone: None,
            manipulator_type: "basic".to_owned(),
        };
        proof {
            assert(r@ =~~= spec_manipulator_set_command(
                layer_view,
                from_view,
                to_view,
                target_view,
            ));
        }
        r
    }

    fn switch_layer(target_layer: String, source_layer: String, from: KeyMapping) -> (r:
        Manipulator)
        ensures
            r@ == spec_manipulator_switch_layer(target_layer@, source_layer@, from@),
    {
        let ghost target_view = target_layer@;
        let ghost source_view = source_layer@;
        let ghost from_view = from@;
        let r = Manipulator {
            conditions: Some(Vec::new()),
            from,
            to: Some(
                vec![
                    ManipulationTarget::set_active(target_layer),
                    ManipulationTarget::set_inactive(source_layer),
                ],
            ),
            to_delayed_action: None,
            to_after_key_up: None,
            to_if_alone: None,
            manipulator_type: "basic".to_owned(),
        };
        proof {
            assert(r@ =~~= spec_manipulator_switch_layer(target_view, source_view, from_view));
        }
        r
    }
}

// ---------------------------------------------------------------------
// Rules
// ---------------------------------------------------------------------

/// The synthesized description of an activation rule.
pub open spec fn spec_change_description(name: Seq<char>) -> Seq<char> {
    "Change to "@ + lower_of(name)
}

/// The synthesized description of a remap rule.
pub open spec fn spec_remap_description(from: Key, to: Key) -> Seq<char> {
    "Remap "@ + token_of_key(from) + " to "@ + token_of_key(to)
}

/// The synthesized description of a command rule.
pub open spec fn spec_command_description(command: Seq<char>) -> Seq<char> {
    "Run command "@ + command
}

/// The synthesized description of a layer-switch rule.
pub open spec fn spec_switch_description(target_layer: Seq<char>) -> Seq<char> {
    "Switch to "@ + target_layer
}

/// The activation rule of a layer: one unguarded manipulator that sets
/// the layer's variable to 1 on its activation combination.
pub open spec fn spec_rule_set_environment(name: Seq<char>, from: KeyMappingSpec) -> RuleSpec {
    RuleSpec {
        description: Some(spec_change_description(name)),
        enabled: true,
        manipulators: seq![spec_manipulator_set_environment(name, from)],
    }
}

/// The rule for a remap binding inside a layer.
pub open spec fn spec_rule_set_keymapping(
    layer: Seq<char>,
    from: KeyMappingSpec,
    to: ToKeyMappingSpec,
    target_layer: Option<Seq<char>>,
) -> RuleSpec {
    RuleSpec {
        description: Some(spec_remap_description(from.key_code, to.key_code)),
        enabled: true,
        manipulators: seq![spec_manipulator_set_keymapping(layer, from, to, target_layer)],
    }
}

/// The rule for a command binding inside a layer.
pub open spec fn spec_rule_set_command(
    layer: Seq<char>,
    from: KeyMappingSpec,
    to: ShellCommandSpec,
    target_layer: Option<Seq<char>>,
) -> RuleSpec {
    RuleSpec {
        description: Some(spec_command_description(to.shell_command)),
        enabled: true,
        manipulators: seq![spec_manipulator_set_command(layer, from, to, target_layer)],
    }
}

/// The rule for an immediate layer switch.
pub open spec fn spec_rule_switch_layer(
    target_layer: Seq<char>,
    source_layer: Seq<char>,
    from: KeyMappingSpec,
) -> RuleSpec {
    RuleSpec {
        description: Some(spec_switch_description(target_layer)),
        enabled: true,
        manipulators: seq![spec_manipulator_switch_layer(target_layer, source_layer, from)],
    }
}

impl Rule {
    pub fn set_environment(name: String, from: KeyMapping) -> (r: Self)
        ensures
            r@ == spec_rule_set_environment(name@, from@),
    {
        let ghost name_view = name@;
        let ghost from_view = from@;
        let lowered = to_lowercase(name.as_str());
        let description = String::from_str("Change to ").concat(lowered.as_str());
        let r = Rule {
            description: Some(description),
            enabled: true,
            manipulators: vec![Manipulator::set_environment(name, from)],
        };
        proof {
            assert(r@ =~~= spec_rule_set_environment(name_view, from_view));
        }
        r
    }

    pub fn set_keymapping_in_layer(
        layer: String,
        from: KeyMapping,
        to: ToKeyMapping,
        target_layer: Option<String>,
    ) -> (r: Self)
        ensures
            r@ == spec_rule_set_keymapping(
                layer@,
                from@,
                to@,
                match target_layer {
                    None => None,
                    Some(l) => Some(l@),
                },
            ),
    {
        let ghost layer_view = layer@;
        let ghost from_view = from@;
        let ghost to_view = to@;
        let ghost target_view: Option<Seq<char>> = match &target_layer {
            None => None,
            Some(l) => Some(l@),
        };
        let description = String::from_str("Remap ").concat(from.key_code.token()).concat(
            " to ",
        ).concat(to.key_code.token());
        let r = Rule {
            description: Some(description),
            enabled: true,
            manipulators: vec![Manipulator::set_keymapping_in_layer(layer, from, to, target_layer)],
        };
        proof {
            assert(r@ =~~= spec_rule_set_keymapping(layer_view, from_view, to_view, target_view));
        }
        r
    }

    pub fn set_command_in_layer(
        layer: String,
        from: KeyMapping,
        to: ShellCommand,
        target_layer: Option<String>,
    ) -> (r: Self)
        ensures
            r@ == spec_rule_set_command(
                layer@,
                from@,
                to@,
                match target_layer {
                    None => None,
                    Some(l) => Some(l@),
                },
            ),
    {
        let ghost layer_view = layer@;
        let ghost from_view = from@;
        let ghost to_view = to@;
        let ghost target_view: Option<Seq<char>> = match &target_layer {
            None => None,
            Some(l) => Some(l@),
        };
        let description = String::from_str("Run command ").concat(to.shell_command.as_str());
        let r = Rule {
            description: Some(description),
            enabled: true,
            manipulators: vec![Manipulator::set_command_in_layer(layer, from, to, target_layer)],
        };
        proof {
            assert(r@ =~~= spec_rule_set_command(layer_view, from_view, to_view, target_view));
        }
        r
    }

    pub fn switch_layer(target_layer: String, source_layer: String, from: KeyMapping) -> (r: Self)
        ensures
            r@ == spec_rule_switch_layer(target_layer@, source_layer@, from@),
    {
        let ghost target_view = target_layer@;
        let ghost source_view = source_layer@;
        let ghost from_view = from@;
        let description = String::from_str("Switch to ").concat(target_layer.as_str());
        let r = Rule {
            description: Some(description),
            enabled: true,
            manipulators: vec![Manipulator::switch_layer(target_layer, source_layer, from)],
        };
        proof {
            assert(r@ =~~= spec_rule_switch_layer(target_view, source_view, from_view));
        }
        r
    }
}

} // verus!
