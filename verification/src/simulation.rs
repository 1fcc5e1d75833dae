//! Simulation of the emitted state-variable writes.
//!
//! The compiler never runs a layer state machine; it only emits rules
//! whose `to` lists and delayed actions write boolean variables.  This
//! module gives those writes their meaning — a write of 1 activates a
//! variable, a write of 0 deactivates it — and proves the mutual
//! exclusion invariant: firing emitted rules, each from a state whose
//! active variables the rule itself activates or deactivates, never
//! leaves more than one layer variable set.
//!
//! The side condition is necessary: activation rules are deliberately
//! unguarded, so pressing a second layer's activation combination
//! while a first layer is active sets both variables.

use vstd::prelude::*;

use crate::configuration::{ActionSpec, ConfigurationSpec, LayerAssignmentSpec, LayerSpec};
use crate::converter::{
    spec_activation_rule, spec_activation_rules, spec_assignment_rule, spec_convert,
};
use crate::karabiner::{
    spec_set_variable, ManipulationTargetSpec, ManipulatorSpec, RuleSpec, SetVariableSpec,
    BASE_LAYER,
};

verus! {

// ---------------------------------------------------------------------
// Applying writes to the variable state
// ---------------------------------------------------------------------

/// One variable write applied to the set of variables that hold 1:
/// writing 1 inserts the variable's name, writing 0 removes it (the
/// compiler writes no other value, see
/// [`lemma_emitted_writes_zero_or_one`]).
pub open spec fn spec_apply_write(state: Set<Seq<char>>, w: SetVariableSpec) -> Set<Seq<char>> {
    if w.value == 1 {
        state.insert(w.name)
    } else {
        state.remove(w.name)
    }
}

/// A list of writes applied in order.
pub open spec fn spec_apply_writes(state: Set<Seq<char>>, ws: Seq<SetVariableSpec>) -> Set<
    Seq<char>,
>
    decreases ws.len(),
{
    if ws.len() == 0 {
        state
    } else {
        spec_apply_writes(spec_apply_write(state, ws[0]), ws.skip(1))
    }
}

/// The variable writes among a manipulator's immediate `to` entries.
pub open spec fn spec_target_writes(ts: Seq<ManipulationTargetSpec>) -> Seq<SetVariableSpec>
    decreases ts.len(),
{
    if ts.len() == 0 {
        seq![]
    } else {
        (match ts[0] {
            ManipulationTargetSpec::SetVariable(v) => seq![v],
            _ => seq![],
        }) + spec_target_writes(ts.skip(1))
    }
}

/// The writes a manipulator performs when its binding is invoked: the
/// immediate writes in its `to` list, then the delayed on-invoke
/// writes.
pub open spec fn spec_manipulator_writes(m: ManipulatorSpec) -> Seq<SetVariableSpec> {
    (match m.to {
        Some(ts) => spec_target_writes(ts),
        None => seq![],
    }) + (match m.to_delayed_action {
        Some(d) => d.to_if_invoked,
        None => seq![],
    })
}

/// The writes a rule performs when it fires.  Every emitted rule has
/// exactly one manipulator.
pub open spec fn spec_rule_writes(r: RuleSpec) -> Seq<SetVariableSpec> {
    if r.manipulators.len() == 0 {
        seq![]
    } else {
        spec_manipulator_writes(r.manipulators[0])
    }
}

/// At most one variable holds 1.
pub open spec fn spec_at_most_one_active(state: Set<Seq<char>>) -> bool {
    forall|a: Seq<char>, b: Seq<char>|
        state.contains(a) && state.contains(b) ==> a == b
}

/// The variables that `r`'s writes set to 1.
pub open spec fn spec_activated_by(r: RuleSpec) -> Set<Seq<char>> {
    Set::new(
        |n: Seq<char>|
            exists|i: int|
                0 <= i < spec_rule_writes(r).len() && spec_rule_writes(r)[i].value == 1
                    && spec_rule_writes(r)[i].name == n,
    )
}

/// The variables that `r`'s writes set to 0.
pub open spec fn spec_deactivated_by(r: RuleSpec) -> Set<Seq<char>> {
    Set::new(
        |n: Seq<char>|
            exists|i: int|
                0 <= i < spec_rule_writes(r).len() && spec_rule_writes(r)[i].value == 0
                    && spec_rule_writes(r)[i].name == n,
    )
}

/// A rule may fire from `state` without breaking mutual exclusion
/// when every currently active variable is one the rule itself
/// activates or deactivates.
pub open spec fn spec_fire_ok(state: Set<Seq<char>>, r: RuleSpec) -> bool {
    forall|n: Seq<char>| #[trigger]
        state.contains(n) ==> spec_activated_by(r).contains(n) || spec_deactivated_by(r).contains(
            n,
        )
}

/// Whether `r` is one of the rules that compiling `c` emits.
pub open spec fn spec_emitted_rule(c: ConfigurationSpec, r: RuleSpec) -> bool {
    spec_convert(c).profiles[0].complex_modifications.rules.contains(r)
}

// ---------------------------------------------------------------------
// The shape of emitted writes
// ---------------------------------------------------------------------

/// The write lists the compiler ever emits: nothing, one activation,
/// one deactivation, or an activation followed by a deactivation.
pub open spec fn spec_writes_shape_ok(ws: Seq<SetVariableSpec>) -> bool {
    ||| ws =~= Seq::<SetVariableSpec>::empty()
    ||| (ws.len() == 1 && ws[0].value == 1)
    ||| (ws.len() == 1 && ws[0].value == 0)
    ||| (ws.len() == 2 && ws[0].value == 1 && ws[1].value == 0)
}

/// Every activation rule's write list is a single activation.
proof fn lemma_activation_rules_shape(layers: Seq<LayerSpec>, r: RuleSpec)
    requires
        spec_activation_rules(layers).contains(r),
    ensures
        spec_rule_writes(r).len() == 1,
        spec_rule_writes(r)[0].value == 1,
    decreases layers.len(),
{
    if layers.len() == 0 {
    } else if layers[0].name == BASE_LAYER@ {
        lemma_activation_rules_shape(layers.skip(1), r);
    } else {
        if r == spec_activation_rule(layers[0]) {
            let m = r.manipulators[0];
            let ts = m.to.unwrap();
            assert(spec_target_writes(ts.skip(1)) =~= Seq::<SetVariableSpec>::empty());
            assert(spec_rule_writes(r) =~= seq![ts[0]->SetVariable_0]);
        } else {
            assert(spec_activation_rules(layers)[0] == spec_activation_rule(layers[0]));
            assert(exists|i: int|
                0 <= i < spec_activation_rules(layers).len() && spec_activation_rules(layers)[i]
                    == r);
            let i = choose|i: int|
                0 <= i < spec_activation_rules(layers).len() && spec_activation_rules(layers)[i]
                    == r;
            assert(i >= 1);
            assert(spec_activation_rules(layers.skip(1))[i - 1] == r);
            lemma_activation_rules_shape(layers.skip(1), r);
        }
    }
}

/// Every assignment rule's write list has one of the emitted shapes.
proof fn lemma_assignment_rule_shape(a: LayerAssignmentSpec)
    ensures
        spec_writes_shape_ok(spec_rule_writes(spec_assignment_rule(a))),
{
    let r = spec_assignment_rule(a);
    let m = r.manipulators[0];
    let ts = m.to.unwrap();
    match a.action {
        ActionSpec::LayerShift(_) => {
            assert(ts.skip(1)[0] == ts[1]);
            assert(ts.skip(1).skip(1) =~= ts.skip(2));
            assert(spec_target_writes(ts.skip(2)) =~= Seq::<SetVariableSpec>::empty());
            assert(spec_target_writes(ts.skip(1)) =~= seq![ts[1]->SetVariable_0]);
            assert(spec_target_writes(ts) =~= seq![ts[0]->SetVariable_0, ts[1]->SetVariable_0]);
            assert(spec_rule_writes(r) =~= seq![ts[0]->SetVariable_0, ts[1]->SetVariable_0]);
        },
        _ => {
            assert(spec_target_writes(ts.skip(1)) =~= Seq::<SetVariableSpec>::empty());
            assert(spec_target_writes(ts) =~= Seq::<SetVariableSpec>::empty());
            match a.next_layer {
                None => {
                    assert(spec_rule_writes(r) =~= Seq::<SetVariableSpec>::empty());
                },
                Some(target) => {
                    if target == BASE_LAYER@ {
                        assert(spec_rule_writes(r) =~= seq![
                            spec_set_variable(a.layer.name, 0),
                        ]);
                    } else {
                        assert(spec_rule_writes(r) =~= seq![
                            spec_set_variable(target, 1),
                            spec_set_variable(a.layer.name, 0),
                        ]);
                    }
                },
            }
        },
    }
}

/// Every rule that compiling `c` emits has one of the four write
/// shapes; in particular every emitted write is of 0 or of 1.
pub proof fn lemma_emitted_writes_shape(c: ConfigurationSpec, r: RuleSpec)
    requires
        spec_emitted_rule(c, r),
    ensures
        spec_writes_shape_ok(spec_rule_writes(r)),
{
    let acts = spec_activation_rules(c.layers.layers);
    let asgs = c.layer_assignments.assignments.map_values(
        |a: LayerAssignmentSpec| spec_assignment_rule(a),
    );
    let rules = spec_convert(c).profiles[0].complex_modifications.rules;
    assert(rules == acts + asgs);
    let i = choose|i: int| 0 <= i < rules.len() && rules[i] == r;
    if i < acts.len() {
        assert(acts[i] == r);
        assert(acts.contains(r));
        lemma_activation_rules_shape(c.layers.layers, r);
    } else {
        assert(asgs[i - acts.len()] == r);
        let a = c.layer_assignments.assignments[i - acts.len()];
        assert(r == spec_assignment_rule(a));
        lemma_assignment_rule_shape(a);
    }
}

/// Numeric semantics: every state-variable write an emitted rule
/// performs writes either 0 or 1, nothing else.
pub proof fn lemma_emitted_writes_zero_or_one(c: ConfigurationSpec, r: RuleSpec, i: int)
    requires
        spec_emitted_rule(c, r),
        0 <= i < spec_rule_writes(r).len(),
    ensures
        spec_rule_writes(r)[i].value == 0 || spec_rule_writes(r)[i].value == 1,
{
    lemma_emitted_writes_shape(c, r);
}

// ---------------------------------------------------------------------
// Mutual exclusion
// ---------------------------------------------------------------------

/// Firing one emitted rule preserves mutual exclusion, provided every
/// variable active beforehand is one the rule activates or
/// deactivates.  (Without that proviso the invariant can break: an
/// activation rule fired while another layer is active sets a second
/// variable.)
pub proof fn lemma_rule_preserves_exclusion(
    c: ConfigurationSpec,
    r: RuleSpec,
    state: Set<Seq<char>>,
)
    requires
        spec_emitted_rule(c, r),
        spec_at_most_one_active(state),
        spec_fire_ok(state, r),
    ensures
        spec_at_most_one_active(spec_apply_writes(state, spec_rule_writes(r))),
{
    lemma_emitted_writes_shape(c, r);
    let ws = spec_rule_writes(r);
    if ws.len() == 0 {
    } else if ws.len() == 1 {
        assert(ws.skip(1) =~= Seq::<SetVariableSpec>::empty());
        assert(spec_apply_writes(state, ws) == spec_apply_writes(
            spec_apply_write(state, ws[0]),
            ws.skip(1),
        ));
        assert(spec_apply_writes(state, ws) == spec_apply_write(state, ws[0]));
        if ws[0].value == 1 {
            assert(forall|n: Seq<char>| state.contains(n) ==> n == ws[0].name);
            assert(spec_at_most_one_active(state.insert(ws[0].name)));
        } else {
            assert(spec_at_most_one_active(state.remove(ws[0].name)));
        }
    } else {
        assert(ws.len() == 2 && ws[0].value == 1 && ws[1].value == 0);
        assert(ws.skip(1)[0] == ws[1]);
        assert(ws.skip(1).skip(1) =~= Seq::<SetVariableSpec>::empty());
        assert(spec_apply_writes(state, ws) == spec_apply_writes(
            spec_apply_write(state, ws[0]),
            ws.skip(1),
        ));
        assert(spec_apply_writes(spec_apply_write(state, ws[0]), ws.skip(1))
            == spec_apply_writes(
            spec_apply_write(spec_apply_write(state, ws[0]), ws[1]),
            ws.skip(1).skip(1),
        ));
        assert(spec_apply_writes(state, ws) == state.insert(ws[0].name).remove(ws[1].name));
        assert(forall|n: Seq<char>|
            state.contains(n) ==> n == ws[0].name || n == ws[1].name);
        assert(spec_at_most_one_active(state.insert(ws[0].name).remove(ws[1].name)));
    }
}

/// The state after firing a list of rules in order.
pub open spec fn spec_run_rules(state: Set<Seq<char>>, rs: Seq<RuleSpec>) -> Set<Seq<char>>
    decreases rs.len(),
{
    if rs.len() == 0 {
        state
    } else {
        spec_run_rules(spec_apply_writes(state, spec_rule_writes(rs[0])), rs.skip(1))
    }
}

proof fn lemma_run_rules_push(state: Set<Seq<char>>, rs: Seq<RuleSpec>, r: RuleSpec)
    ensures
        spec_run_rules(state, rs.push(r)) == spec_apply_writes(
            spec_run_rules(state, rs),
            spec_rule_writes(r),
        ),
    decreases rs.len(),
{
    if rs.len() == 0 {
        assert(rs.push(r)[0] == r);
        assert(rs.push(r).skip(1) =~= Seq::<RuleSpec>::empty());
        assert(spec_run_rules(state, rs.push(r)) == spec_run_rules(
            spec_apply_writes(state, spec_rule_writes(r)),
            rs.push(r).skip(1),
        ));
        assert(spec_run_rules(
            spec_apply_writes(state, spec_rule_writes(r)),
            rs.push(r).skip(1),
        ) == spec_apply_writes(state, spec_rule_writes(r)));
    } else {
        assert(rs.push(r)[0] == rs[0]);
        assert(rs.push(r).skip(1) =~= rs.skip(1).push(r));
        lemma_run_rules_push(spec_apply_writes(state, spec_rule_writes(rs[0])), rs.skip(1), r);
        assert(spec_run_rules(state, rs.push(r)) == spec_run_rules(
            spec_apply_writes(state, spec_rule_writes(rs[0])),
            rs.skip(1).push(r),
        ));
        assert(spec_run_rules(state, rs) == spec_run_rules(
            spec_apply_writes(state, spec_rule_writes(rs[0])),
            rs.skip(1),
        ));
    }
}

/// Mutual exclusion along a whole firing sequence: starting from a
/// state with at most one active variable, firing emitted rules one
/// after another — each admissible in the state it meets — leaves at
/// most one variable active at every step.
pub proof fn lemma_sequence_preserves_exclusion(
    c: ConfigurationSpec,
    state: Set<Seq<char>>,
    rs: Seq<RuleSpec>,
    k: int,
)
    requires
        spec_at_most_one_active(state),
        forall|i: int| 0 <= i < rs.len() ==> spec_emitted_rule(c, #[trigger] rs[i]),
        forall|i: int|
            0 <= i < rs.len() ==> spec_fire_ok(
                spec_run_rules(state, #[trigger] rs.take(i)),
                rs[i],
            ),
        0 <= k <= rs.len(),
    ensures
        spec_at_most_one_active(spec_run_rules(state, rs.take(k))),
    decreases k,
{
    if k == 0 {
        assert(rs.take(0) =~= Seq::<RuleSpec>::empty());
    } else {
        lemma_sequence_preserves_exclusion(c, state, rs, k - 1);
        assert(rs.take(k) =~= rs.take(k - 1).push(rs[k - 1]));
        lemma_run_rules_push(state, rs.take(k - 1), rs[k - 1]);
        lemma_rule_preserves_exclusion(c, rs[k - 1], spec_run_rules(state, rs.take(k - 1)));
    }
}

} // verus!
