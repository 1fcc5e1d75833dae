//! Compiles a layered key-binding description into the flat, conditional
//! rule format of a third-party keyboard-remapping engine.
//!
//! A configuration declares simple one-to-one key substitutions, named
//! layers (modal binding sets activated by a key combination), and
//! per-layer bindings that run a shell command, emit a substitute key
//! combination, or switch the active layer.  The compiler lowers that
//! description into a list of rules guarded by hidden boolean state
//! variables, one per non-base layer, that emulate modal layers on an
//! engine with no native concept of them.

use vstd::prelude::*;

pub mod configuration;
pub mod converter;
pub mod karabiner;
pub mod keys;
pub mod simulation;
pub mod text;

use crate::karabiner::{Profile, Profiles};

verus! {

/// How a compiled configuration is delivered to the engine's
/// on-disk configuration: merged into it, substituted for the
/// current profile's rules, or printed.
pub enum Method {
    Extend,
    Replace,
    StdOut,
}

/// Replaces the complex-modification rules of the first profile of an
/// existing engine configuration with those of a freshly compiled one.
/// Everything else in the existing configuration is kept; when either
/// side has no profile at all, the existing configuration is returned
/// unchanged.
pub fn replace_config(existing: Profiles, config: Profiles) -> (r: Profiles)
    ensures
        r@.profiles.len() == existing@.profiles.len(),
        forall|i: int| 1 <= i < r@.profiles.len() ==> r@.profiles[i] == existing@.profiles[i],
        existing@.profiles.len() > 0 && config@.profiles.len() > 0 ==> {
            &&& r@.profiles[0].complex_modifications == config@.profiles[0].complex_modifications
            &&& r@.profiles[0].devices == existing@.profiles[0].devices
            &&& r@.profiles[0].name == existing@.profiles[0].name
            &&& r@.profiles[0].selected == existing@.profiles[0].selected
        },
        existing@.profiles.len() == 0 || config@.profiles.len() == 0 ==> r@ == existing@,
{
    let mut existing = existing;
    let mut config = config;
    if existing.profiles.len() > 0 && config.profiles.len() > 0 {
        let ghost old_existing = existing@;
        let current = existing.profiles.remove(0);
        let fresh = config.profiles.remove(0);
        let updated = Profile {
            complex_modifications: fresh.complex_modifications,
            devices: current.devices,
            name: current.name,
            selected: current.selected,
        };
        existing.profiles.insert(0, updated);
        proof {
            assert(existing@.profiles =~= old_existing.profiles.update(
                0,
                existing@.profiles[0],
            ));
        }
        existing
    } else {
        existing
    }
}

/// Extends the first profile of an existing engine configuration with
/// the complex-modification rules of a freshly compiled one: the new
/// rules are appended after the rules already there.  Everything else
/// is kept; when either side has no profile at all, the existing
/// configuration is returned unchanged.
pub fn extend_config(existing: Profiles, config: Profiles) -> (r: Profiles)
    ensures
        r@.profiles.len() == existing@.profiles.len(),
        forall|i: int| 1 <= i < r@.profiles.len() ==> r@.profiles[i] == existing@.profiles[i],
        existing@.profiles.len() > 0 && config@.profiles.len() > 0 ==> {
            &&& r@.profiles[0].complex_modifications.rules
                == existing@.profiles[0].complex_modifications.rules
                + config@.profiles[0].complex_modifications.rules
            &&& r@.profiles[0].devices == existing@.profiles[0].devices
            &&& r@.profiles[0].name == existing@.profiles[0].name
            &&& r@.profiles[0].selected == existing@.profiles[0].selected
        },
        existing@.profiles.len() == 0 || config@.profiles.len() == 0 ==> r@ == existing@,
{
    let mut existing = existing;
    let mut config = config;
    if existing.profiles.len() > 0 && config.profiles.len() > 0 {
        let ghost old_existing = existing@;
        let current = existing.profiles.remove(0);
        let fresh = config.profiles.remove(0);
        let mut rules = current.complex_modifications.rules;
        let ghost current_rules = rules@;
        let mut fresh_rules = fresh.complex_modifications.rules;
        let ghost added_rules = fresh_rules@;
        rules.append(&mut fresh_rules);
        let updated = Profile {
            complex_modifications: karabiner::ComplexModifications { rules },
            devices: current.devices,
            name: current.name,
            selected: current.selected,
        };
        existing.profiles.insert(0, updated);
        proof {
            assert(existing@.profiles[0].complex_modifications.rules =~= current_rules
                .map_values(|r: karabiner::Rule| r@) + added_rules.map_values(
                |r: karabiner::Rule| r@,
            ));
        }
        existing
    } else {
        existing
    }
}

} // verus!
