//! The Configuration Model: the typed, validated representation of a
//! layered key-binding description, and its construction from the
//! abstract key-value/table tree that the textual parser hands over.
//!
//! Construction validates everything: key tokens must be in the
//! catalog, the two mandatory top-level sections must be present, every
//! declared layer must have an assignment section, assignment keys must
//! be unique within a layer, and every referenced layer name must be
//! declared (the reserved base name counts as declared).  The compiler
//! itself is therefore infallible.

use vstd::prelude::*;

use crate::karabiner::BASE_LAYER;
use crate::keys::{key_of_token, Key};
use crate::text::{split_on_plus, split_plus, str_eq, str_starts_with};

verus! {

// ---------------------------------------------------------------------
// The abstract input tree
// ---------------------------------------------------------------------

/// The abstract key-value/table tree produced by the textual parser.
/// Entries keep the parser's iteration order.  A value that is neither
/// text nor a table is carried as [`TomlTree::Other`]; construction
/// treats it exactly as TOML treats a value of the wrong shape.
#[derive(Debug, PartialEq, Eq)]
pub enum TomlTree {
    Text(String),
    Table(Vec<(String, TomlTree)>),
    Other,
}

/// The entry of `key` in a table's entry list, if any.
pub open spec fn spec_table_get(entries: Seq<(String, TomlTree)>, key: Seq<char>) -> Option<
    TomlTree,
>
    decreases entries.len(),
{
    if entries.len() == 0 {
        None
    } else if entries[0].0@ == key {
        Some(entries[0].1)
    } else {
        spec_table_get(entries.skip(1), key)
    }
}

/// The entry of `key` in `t`, if `t` is a table that has one.
pub open spec fn spec_tree_get(t: TomlTree, key: Seq<char>) -> Option<TomlTree> {
    match t {
        TomlTree::Table(entries) => spec_table_get(entries@, key),
        _ => None,
    }
}

/// The text under `key` in `t`, if `t` is a table and the entry is text.
pub open spec fn spec_tree_get_str(t: TomlTree, key: Seq<char>) -> Option<Seq<char>> {
    match spec_tree_get(t, key) {
        Some(TomlTree::Text(s)) => Some(s@),
        _ => None,
    }
}

impl TomlTree {
    /// The entry of `key`, if this tree is a table that has one.
    pub fn get<'a>(&'a self, key: &str) -> (r: Option<&'a TomlTree>)
        ensures
            match r {
                Some(v) => spec_tree_get(*self, key@) == Some(*v),
                None => spec_tree_get(*self, key@) is None,
            },
    {
        match self {
            TomlTree::Table(entries) => {
                let n = entries.len();
                let mut i: usize = 0;
                proof {
                    assert(*self == TomlTree::Table(*entries));
                    assert(spec_tree_get(*self, key@) == spec_table_get(entries@, key@));
                    assert(entries@.skip(0) =~= entries@);
                }
                while i < n
                    invariant
                        i <= n,
                        n == entries@.len(),
                        spec_tree_get(*self, key@) == spec_table_get(entries@, key@),
                        spec_table_get(entries@, key@) == spec_table_get(
                            entries@.skip(i as int),
                            key@,
                        ),
                    decreases n - i,
                {
                    proof {
                        assert(entries@.skip(i as int)[0] == entries@[i as int]);
                        assert(entries@.skip(i as int).skip(1) =~= entries@.skip(i as int + 1));
                    }
                    if str_eq(entries[i].0.as_str(), key) {
                        proof {
                            assert(spec_table_get(entries@.skip(i as int), key@) == Some(
                                entries@[i as int].1,
                            ));
                        }
                        return Some(&entries[i].1);
                    }
                    i += 1;
                }
                proof {
                    assert(entries@.skip(n as int) =~= Seq::<(String, TomlTree)>::empty());
                }
                None
            },
            _ => None,
        }
    }

    /// The text under `key`, if this tree is a table whose entry for
    /// `key` is text.
    pub fn get_str<'a>(&'a self, key: &str) -> (r: Option<&'a String>)
        ensures
            match r {
                Some(s) => spec_tree_get_str(*self, key@) == Some(s@),
                None => spec_tree_get_str(*self, key@) is None,
            },
    {
        match self.get(key) {
            Some(TomlTree::Text(s)) => Some(s),
            _ => None,
        }
    }
}

// ---------------------------------------------------------------------
// Construction errors
// ---------------------------------------------------------------------

/// Why a configuration could not be built from the input tree.  Every
/// variant names the offending construct.
#[derive(Debug, Clone, PartialEq, Eq)]
pub enum ConfigError {
    /// A table was required where the input held something else.
    ExpectedTable,
    /// The mandatory top-level `simple_remaps` section is missing.
    MissingSimpleRemaps,
    /// The mandatory top-level `layers` section is missing.
    MissingLayers,
    /// A key on the left of a simple remap is not a catalog token.
    InvalidRemapKey { token: String },
    /// The target of a simple remap is not text.
    ExpectedRemapString { key: String },
    /// A token in the target of a simple remap is not in the catalog.
    InvalidRemapValue { token: String },
    /// A layer's activation keys are not text.
    ExpectedLayerString { name: String },
    /// A token in a layer's activation key sequence is not in the catalog.
    InvalidLayerKey { token: String },
    /// An action descriptor has none of `command`, `remap`, `move_layer`.
    UnknownAction,
    /// A key token in an assignment or remap sequence is not in the catalog.
    InvalidKey { token: String },
    /// Two assignments in one layer bind the same key.
    DuplicateAssignment { token: String },
    /// A declared layer has no assignment section.
    LayerNotFound { name: String },
    /// A referenced layer name is not declared and is not the base name.
    UndeclaredLayer { name: String },
}

#[verifier::ext_equal]
pub enum ConfigErrorSpec {
    ExpectedTable,
    MissingSimpleRemaps,
    MissingLayers,
    InvalidRemapKey { token: Seq<char> },
    ExpectedRemapString { key: Seq<char> },
    InvalidRemapValue { token: Seq<char> },
    ExpectedLayerString { name: Seq<char> },
    InvalidLayerKey { token: Seq<char> },
    UnknownAction,
    InvalidKey { token: Seq<char> },
    DuplicateAssignment { token: Seq<char> },
    LayerNotFound { name: Seq<char> },
    UndeclaredLayer { name: Seq<char> },
}

impl View for ConfigError {
    type V = ConfigErrorSpec;

    open spec fn view(&self) -> ConfigErrorSpec {
        match self {
            ConfigError::ExpectedTable => ConfigErrorSpec::ExpectedTable,
            ConfigError::MissingSimpleRemaps => ConfigErrorSpec::MissingSimpleRemaps,
            ConfigError::MissingLayers => ConfigErrorSpec::MissingLayers,
            ConfigError::InvalidRemapKey { token } => ConfigErrorSpec::InvalidRemapKey {
                token: token@,
            },
            ConfigError::ExpectedRemapString { key } => ConfigErrorSpec::ExpectedRemapString {
                key: key@,
            },
            ConfigError::InvalidRemapValue { token } => ConfigErrorSpec::InvalidRemapValue {
                token: token@,
            },
            ConfigError::ExpectedLayerString { name } => ConfigErrorSpec::ExpectedLayerString {
                name: name@,
            },
            ConfigError::InvalidLayerKey { token } => ConfigErrorSpec::InvalidLayerKey {
                token: token@,
            },
            ConfigError::UnknownAction => ConfigErrorSpec::UnknownAction,
            ConfigError::InvalidKey { token } => ConfigErrorSpec::InvalidKey { token: token@ },
            ConfigError::DuplicateAssignment { token } => ConfigErrorSpec::DuplicateAssignment {
                token: token@,
            },
            ConfigError::LayerNotFound { name } => ConfigErrorSpec::LayerNotFound { name: name@ },
            ConfigError::UndeclaredLayer { name } => ConfigErrorSpec::UndeclaredLayer {
                name: name@,
            },
        }
    }
}

/// The diagnostic text of each error: a single message naming the
/// construct and the offending name or token.
pub open spec fn spec_error_message(e: ConfigErrorSpec) -> Seq<char> {
    match e {
        ConfigErrorSpec::ExpectedTable => "Expected a table, but found something else"@,
        ConfigErrorSpec::MissingSimpleRemaps => "Missing remaps in configuration"@,
        ConfigErrorSpec::MissingLayers => "Missing layers in configuration"@,
        ConfigErrorSpec::InvalidRemapKey { token } => "Invalid key in remaps: "@ + token,
        ConfigErrorSpec::ExpectedRemapString { key } => "Expected string for remap value of: "@
            + key,
        ConfigErrorSpec::InvalidRemapValue { token } => "Invalid value in remaps: "@ + token,
        ConfigErrorSpec::ExpectedLayerString { name } => "Expected string for layer keys of: "@
            + name,
        ConfigErrorSpec::InvalidLayerKey { token } => "Invalid key in layer: "@ + token,
        ConfigErrorSpec::UnknownAction => "Unknown action type"@,
        ConfigErrorSpec::InvalidKey { token } => "Invalid key: "@ + token,
        ConfigErrorSpec::DuplicateAssignment { token } => "Duplicate assignment for key: "@
            + token,
        ConfigErrorSpec::LayerNotFound { name } => "Layer not found: "@ + name,
        ConfigErrorSpec::UndeclaredLayer { name } => "Layer is not declared: "@ + name,
    }
}

impl ConfigError {
    /// The diagnostic message of this error.
    pub fn message(&self) -> (r: String)
        ensures
            r@ == spec_error_message(self@),
    {
        match self {
            ConfigError::ExpectedTable => "Expected a table, but found something else".to_owned(),
            ConfigError::MissingSimpleRemaps => "Missing remaps in configuration".to_owned(),
            ConfigError::MissingLayers => "Missing layers in configuration".to_owned(),
            ConfigError::InvalidRemapKey { token } => String::from_str(
                "Invalid key in remaps: ",
            ).concat(token.as_str()),
            ConfigError::ExpectedRemapString { key } => String::from_str(
                "Expected string for remap value of: ",
            ).concat(key.as_str()),
            ConfigError::InvalidRemapValue { token } => String::from_str(
                "Invalid value in remaps: ",
            ).concat(token.as_str()),
            ConfigError::ExpectedLayerString { name } => String::from_str(
                "Expected string for layer keys of: ",
            ).concat(name.as_str()),
            ConfigError::InvalidLayerKey { token } => String::from_str(
                "Invalid key in layer: ",
            ).concat(token.as_str()),
            ConfigError::UnknownAction => "Unknown action type".to_owned(),
            ConfigError::InvalidKey { token } => String::from_str("Invalid key: ").concat(
                token.as_str(),
            ),
            ConfigError::DuplicateAssignment { token } => String::from_str(
                "Duplicate assignment for key: ",
            ).concat(token.as_str()),
            ConfigError::LayerNotFound { name } => String::from_str("Layer not found: ").concat(
                name.as_str(),
            ),
            ConfigError::UndeclaredLayer { name } => String::from_str(
                "Layer is not declared: ",
            ).concat(name.as_str()),
        }
    }
}

// ---------------------------------------------------------------------
// The model types and their views
// ---------------------------------------------------------------------

/// An unconditional, layer-independent key substitution: pressing
/// `from` behaves as the `to` sequence.
#[derive(Debug, Clone, PartialEq, Eq)]
pub struct SimpleRemap {
    pub from: Key,
    pub to: Vec<Key>,
}

#[verifier::ext_equal]
pub struct SimpleRemapSpec {
    pub from: Key,
    pub to: Seq<Key>,
}

impl View for SimpleRemap {
    type V = SimpleRemapSpec;

    open spec fn view(&self) -> SimpleRemapSpec {
        SimpleRemapSpec { from: self.from, to: self.to@ }
    }
}

#[derive(Debug, Clone, PartialEq, Eq)]
pub struct SimpleRemaps {
    pub remaps: Vec<SimpleRemap>,
}

#[verifier::ext_equal]
pub struct SimpleRemapsSpec {
    pub remaps: Seq<SimpleRemapSpec>,
}

impl View for SimpleRemaps {
    type V = SimpleRemapsSpec;

    open spec fn view(&self) -> SimpleRemapsSpec {
        SimpleRemapsSpec { remaps: self.remaps@.map_values(|r: SimpleRemap| r@) }
    }
}

/// A modal binding set.  The first activation key is the trigger; any
/// further keys are modifiers held with it.
#[derive(Debug, Clone, PartialEq, Eq)]
pub struct Layer {
    pub name: String,
    pub keys: Vec<Key>,
}

#[verifier::ext_equal]
pub struct LayerSpec {
    pub name: Seq<char>,
    pub keys: Seq<Key>,
}

impl View for Layer {
    type V = LayerSpec;

    open spec fn view(&self) -> LayerSpec {
        LayerSpec { name: self.name@, keys: self.keys@ }
    }
}

impl Layer {
    /// A copy of this layer.
    pub fn duplicate(&self) -> (r: Layer)
        ensures
            r@ == self@,
    {
        Layer { name: self.name.clone(), keys: copy_keys(&self.keys) }
    }
}

#[derive(Debug, Clone, PartialEq, Eq)]
pub struct Layers {
    pub layers: Vec<Layer>,
}

#[verifier::ext_equal]
pub struct LayersSpec {
    pub layers: Seq<LayerSpec>,
}

impl View for Layers {
    type V = LayersSpec;

    open spec fn view(&self) -> LayersSpec {
        LayersSpec { layers: self.layers@.map_values(|l: Layer| l@) }
    }
}

/// Run an external shell command.
#[derive(Debug, Clone, PartialEq, Eq)]
pub struct Command {
    pub value: String,
}

/// Switch the active layer immediately.
#[derive(Debug, Clone, PartialEq, Eq)]
pub struct LayerShift {
    pub move_layer: String,
}

/// Emit a substitute key combination.
#[derive(Debug, Clone, PartialEq, Eq)]
pub struct LayerRemap {
    pub to: Vec<Key>,
}

/// What a binding does when its key is pressed inside its layer.
#[derive(Debug, Clone, PartialEq, Eq)]
pub enum Action {
    Command(Command),
    LayerRemap(LayerRemap),
    LayerShift(LayerShift),
}

#[verifier::ext_equal]
pub enum ActionSpec {
    Command(Seq<char>),
    LayerRemap(Seq<Key>),
    LayerShift(Seq<char>),
}

impl View for Action {
    type V = ActionSpec;

    open spec fn view(&self) -> ActionSpec {
        match self {
            Action::Command(c) => ActionSpec::Command(c.value@),
            Action::LayerRemap(r) => ActionSpec::LayerRemap(r.to@),
            Action::LayerShift(s) => ActionSpec::LayerShift(s.move_layer@),
        }
    }
}

/// "While `layer` is active, pressing `key` performs `action`."
/// `next_layer`, when present, names the layer to move to once a
/// command or remap action resolves.
#[derive(Debug, Clone, PartialEq, Eq)]
pub struct LayerAssignment {
    pub layer: Layer,
    pub key: Key,
    pub action: Action,
    pub next_layer: Option<String>,
    pub description: Option<String>,
}

#[verifier::ext_equal]
pub struct LayerAssignmentSpec {
    pub layer: LayerSpec,
    pub key: Key,
    pub action: ActionSpec,
    pub next_layer: Option<Seq<char>>,
    pub description: Option<Seq<char>>,
}

impl View for LayerAssignment {
    type V = LayerAssignmentSpec;

    open spec fn view(&self) -> LayerAssignmentSpec {
        LayerAssignmentSpec {
            layer: self.layer@,
            key: self.key,
            action: self.action@,
            next_layer: match self.next_layer {
                Some(n) => Some(n@),
                None => None,
            },
            description: match self.description {
                Some(d) => Some(d@),
                None => None,
            },
        }
    }
}

#[derive(Debug, Clone, PartialEq, Eq)]
pub struct LayerAssignments {
    pub assignments: Vec<LayerAssignment>,
}

#[verifier::ext_equal]
pub struct LayerAssignmentsSpec {
    pub assignments: Seq<LayerAssignmentSpec>,
}

impl View for LayerAssignments {
    type V = LayerAssignmentsSpec;

    open spec fn view(&self) -> LayerAssignmentsSpec {
        LayerAssignmentsSpec {
            assignments: self.assignments@.map_values(|a: LayerAssignment| a@),
        }
    }
}

/// The aggregate root: everything the compiler consumes.
#[derive(Debug, Clone, PartialEq, Eq)]
pub struct Configuration {
    pub simple_remaps: SimpleRemaps,
    pub layers: Layers,
    pub layer_assignments: LayerAssignments,
}

#[verifier::ext_equal]
pub struct ConfigurationSpec {
    pub simple_remaps: SimpleRemapsSpec,
    pub layers: LayersSpec,
    pub layer_assignments: LayerAssignmentsSpec,
}

impl View for Configuration {
    type V = ConfigurationSpec;

    open spec fn view(&self) -> ConfigurationSpec {
        ConfigurationSpec {
            simple_remaps: self.simple_remaps@,
            layers: self.layers@,
            layer_assignments: self.layer_assignments@,
        }
    }
}

impl SimpleRemap {
    /// A copy of this remap.
    pub fn duplicate(&self) -> (r: SimpleRemap)
        ensures
            r@ == self@,
    {
        SimpleRemap { from: self.from, to: copy_keys(&self.to) }
    }
}

impl SimpleRemaps {
    /// A copy of this remap list.
    pub fn duplicate(&self) -> (r: SimpleRemaps)
        ensures
            r@ == self@,
    {
        let mut remaps: Vec<SimpleRemap> = Vec::new();
        let mut i: usize = 0;
        while i < self.remaps.len()
            invariant
                i <= self.remaps@.len(),
                remaps@.len() == i,
                forall|j: int| 0 <= j < i ==> remaps@[j]@ == self.remaps@[j]@,
            decreases self.remaps@.len() - i,
        {
            remaps.push(self.remaps[i].duplicate());
            i += 1;
        }
        let r = SimpleRemaps { remaps };
        proof {
            assert(r@ =~~= self@);
        }
        r
    }
}

impl Action {
    /// A copy of this action.
    pub fn duplicate(&self) -> (r: Action)
        ensures
            r@ == self@,
    {
        match self {
            Action::Command(c) => Action::Command(Command { value: c.value.clone() }),
            Action::LayerRemap(m) => Action::LayerRemap(LayerRemap { to: copy_keys(&m.to) }),
            Action::LayerShift(s) => Action::LayerShift(LayerShift {
                move_layer: s.move_layer.clone(),
            }),
        }
    }
}

impl LayerAssignment {
    /// A copy of this assignment.
    pub fn duplicate(&self) -> (r: LayerAssignment)
        ensures
            r@ == self@,
    {
        LayerAssignment {
            layer: self.layer.duplicate(),
            key: self.key,
            action: self.action.duplicate(),
            next_layer: match &self.next_layer {
                Some(n) => Some(n.clone()),
                None => None,
            },
            description: match &self.description {
                Some(d) => Some(d.clone()),
                None => None,
            },
        }
    }
}

// ---------------------------------------------------------------------
// Key sequences
// ---------------------------------------------------------------------

/// The keys named by the catalog tokens `parts`, or the first token
/// that is not in the catalog.
pub open spec fn spec_keys_of_parts(parts: Seq<Seq<char>>) -> Result<Seq<Key>, Seq<char>>
    decreases parts.len(),
{
    if parts.len() == 0 {
        Ok(seq![])
    } else {
        match key_of_token(parts[0]) {
            None => Err(parts[0]),
            Some(k) => match spec_keys_of_parts(parts.skip(1)) {
                Ok(rest) => Ok(seq![k] + rest),
                Err(t) => Err(t),
            },
        }
    }
}

/// The key sequence written as `"+"`-joined catalog tokens in `s`.
fn parse_key_list(s: &str) -> (r: Result<Vec<Key>, String>)
    ensures
        match r {
            Ok(keys) => spec_keys_of_parts(split_on_plus(s@)) == Ok::<Seq<Key>, Seq<char>>(keys@),
            Err(tok) => spec_keys_of_parts(split_on_plus(s@)) == Err::<Seq<Key>, Seq<char>>(tok@),
        },
{
    let parts = split_plus(s);
    let n = parts.len();
    let mut keys: Vec<Key> = Vec::new();
    let mut i: usize = 0;
    proof {
        assert(split_on_plus(s@).skip(0) =~= split_on_plus(s@));
    }
    while i < n
        invariant
            i <= n,
            n == parts@.len(),
            n == split_on_plus(s@).len(),
            forall|j: int| 0 <= j < n ==> parts@[j]@ == split_on_plus(s@)[j],
            spec_keys_of_parts(split_on_plus(s@)) == (match spec_keys_of_parts(
                split_on_plus(s@).skip(i as int),
            ) {
                Ok(rest) => Ok::<Seq<Key>, Seq<char>>(keys@ + rest),
                Err(t) => Err::<Seq<Key>, Seq<char>>(t),
            }),
        decreases n - i,
    {
        proof {
            assert(split_on_plus(s@).skip(i as int)[0] == split_on_plus(s@)[i as int]);
            assert(split_on_plus(s@).skip(i as int).skip(1) =~= split_on_plus(s@).skip(
                i as int + 1,
            ));
        }
        match Key::from_token(parts[i]) {
            None => {
                return Err(parts[i].to_owned());
            },
            Some(k) => {
                let ghost old_keys = keys@;
                keys.push(k);
                proof {
                    match spec_keys_of_parts(split_on_plus(s@).skip(i as int + 1)) {
                        Ok(rest) => {
                            assert(old_keys + (seq![k] + rest) =~= keys@ + rest);
                        },
                        Err(_) => {},
                    }
                }
            },
        }
        i += 1;
    }
    proof {
        assert(split_on_plus(s@).skip(n as int) =~= Seq::<Seq<char>>::empty());
        assert(keys@ + Seq::<Key>::empty() =~= keys@);
    }
    Ok(keys)
}

// ---------------------------------------------------------------------
// Simple remaps
// ---------------------------------------------------------------------

/// The simple remaps read off a section's entries, or the first
/// error: each entry maps one key token to a `"+"`-joined target
/// sequence.
pub open spec fn spec_remap_entries(entries: Seq<(String, TomlTree)>) -> Result<
    Seq<SimpleRemapSpec>,
    ConfigErrorSpec,
>
    decreases entries.len(),
{
    if entries.len() == 0 {
        Ok(seq![])
    } else {
        match key_of_token(entries[0].0@) {
            None => Err(ConfigErrorSpec::InvalidRemapKey { token: entries[0].0@ }),
            Some(from) => match entries[0].1 {
                TomlTree::Text(to_str) => match spec_keys_of_parts(split_on_plus(to_str@)) {
                    Err(tok) => Err(ConfigErrorSpec::InvalidRemapValue { token: tok }),
                    Ok(to) => match spec_remap_entries(entries.skip(1)) {
                        Ok(rest) => Ok(seq![SimpleRemapSpec { from, to }] + rest),
                        Err(e) => Err(e),
                    },
                },
                _ => Err(ConfigErrorSpec::ExpectedRemapString { key: entries[0].0@ }),
            },
        }
    }
}

/// The simple remaps of the `simple_remaps` section `t`.
pub open spec fn spec_simple_remaps_of(t: TomlTree) -> Result<Seq<SimpleRemapSpec>, ConfigErrorSpec> {
    match t {
        TomlTree::Table(entries) => spec_remap_entries(entries@),
        _ => Err(ConfigErrorSpec::ExpectedTable),
    }
}

impl SimpleRemaps {
    /// Builds the simple remaps from their section of the input tree:
    /// each entry maps one catalog token to a `"+"`-joined sequence of
    /// catalog tokens (a single key, or a key with modifiers).
    pub fn from_toml(value: &TomlTree) -> (r: Result<Self, ConfigError>)
        ensures
            match r {
                Ok(remaps) => spec_simple_remaps_of(*value) == Ok::<_, ConfigErrorSpec>(
                    remaps@.remaps,
                ),
                Err(e) => spec_simple_remaps_of(*value) == Err::<Seq<SimpleRemapSpec>, _>(e@),
            },
    {
        match value {
            TomlTree::Table(entries) => {
                let n = entries.len();
                let mut remaps: Vec<SimpleRemap> = Vec::new();
                let mut i: usize = 0;
                proof {
                    assert(entries@.skip(0) =~= entries@);
                }
                while i < n
                    invariant
                        i <= n,
                        n == entries@.len(),
                        spec_simple_remaps_of(*value) == spec_remap_entries(entries@),
                        spec_remap_entries(entries@) == (match spec_remap_entries(
                            entries@.skip(i as int),
                        ) {
                            Ok(rest) => Ok::<_, ConfigErrorSpec>(
                                remaps@.map_values(|m: SimpleRemap| m@) + rest,
                            ),
                            Err(e) => Err::<Seq<SimpleRemapSpec>, _>(e),
                        }),
                    decreases n - i,
                {
                    proof {
                        assert(entries@.skip(i as int)[0] == entries@[i as int]);
                        assert(entries@.skip(i as int).skip(1) =~= entries@.skip(i as int + 1));
                    }
                    let from = match Key::from_token(entries[i].0.as_str()) {
                        Some(k) => k,
                        None => {
                            return Err(ConfigError::InvalidRemapKey { token: entries[i].0.clone() });
                        },
                    };
                    match &entries[i].1 {
                        TomlTree::Text(to_str) => {
                            match parse_key_list(to_str.as_str()) {
                                Ok(to_keys) => {
                                    let ghost old_remaps = remaps@;
                                    let ghost to_view = to_keys@;
                                    remaps.push(SimpleRemap { from, to: to_keys });
                                    proof {
                                        assert(remaps@.map_values(|m: SimpleRemap| m@)
                                            =~= old_remaps.map_values(|m: SimpleRemap| m@)
                                            + seq![SimpleRemapSpec { from, to: to_view }]);
                                        match spec_remap_entries(entries@.skip(i as int + 1)) {
                                            Ok(rest) => {
                                                assert(old_remaps.map_values(|m: SimpleRemap| m@)
                                                    + (seq![SimpleRemapSpec { from, to: to_view }]
                                                    + rest) =~= remaps@.map_values(
                                                    |m: SimpleRemap| m@,
                                                ) + rest);
                                            },
                                            Err(_) => {},
                                        }
                                    }
                                },
                                Err(tok) => {
                                    return Err(ConfigError::InvalidRemapValue { token: tok });
                                },
                            }
                        },
                        _ => {
                            return Err(
                                ConfigError::ExpectedRemapString { key: entries[i].0.clone() },
                            );
                        },
                    }
                    i += 1;
                }
                proof {
                    assert(entries@.skip(n as int) =~= Seq::<(String, TomlTree)>::empty());
                    assert(remaps@.map_values(|m: SimpleRemap| m@) + Seq::<
                        SimpleRemapSpec,
                    >::empty() =~= remaps@.map_values(|m: SimpleRemap| m@));
                }
                Ok(SimpleRemaps { remaps })
            },
            _ => Err(ConfigError::ExpectedTable),
        }
    }
}

// ---------------------------------------------------------------------
// Layers
// ---------------------------------------------------------------------

/// The layers read off the `layers` section's entries, or the first
/// error: each entry maps a layer name to its `"+"`-joined activation
/// key sequence.
pub open spec fn spec_layer_entries(entries: Seq<(String, TomlTree)>) -> Result<
    Seq<LayerSpec>,
    ConfigErrorSpec,
>
    decreases entries.len(),
{
    if entries.len() == 0 {
        Ok(seq![])
    } else {
        match entries[0].1 {
            TomlTree::Text(keys_str) => match spec_keys_of_parts(split_on_plus(keys_str@)) {
                Err(tok) => Err(ConfigErrorSpec::InvalidLayerKey { token: tok }),
                Ok(keys) => match spec_layer_entries(entries.skip(1)) {
                    Ok(rest) => Ok(seq![LayerSpec { name: entries[0].0@, keys }] + rest),
                    Err(e) => Err(e),
                },
            },
            _ => Err(ConfigErrorSpec::ExpectedLayerString { name: entries[0].0@ }),
        }
    }
}

/// The layers of the `layers` section `t`.
pub open spec fn spec_layers_of(t: TomlTree) -> Result<Seq<LayerSpec>, ConfigErrorSpec> {
    match t {
        TomlTree::Table(entries) => spec_layer_entries(entries@),
        _ => Err(ConfigErrorSpec::ExpectedTable),
    }
}

impl Layers {
    /// Builds the declared layers from their section of the input
    /// tree: each entry maps a layer name to its activation keys.
    pub fn from_toml(value: &TomlTree) -> (r: Result<Self, ConfigError>)
        ensures
            match r {
                Ok(layers) => spec_layers_of(*value) == Ok::<_, ConfigErrorSpec>(layers@.layers),
                Err(e) => spec_layers_of(*value) == Err::<Seq<LayerSpec>, _>(e@),
            },
    {
        match value {
            TomlTree::Table(entries) => {
                let n = entries.len();
                let mut layers: Vec<Layer> = Vec::new();
                let mut i: usize = 0;
                proof {
                    assert(entries@.skip(0) =~= entries@);
                }
                while i < n
                    invariant
                        i <= n,
                        n == entries@.len(),
                        spec_layers_of(*value) == spec_layer_entries(entries@),
                        spec_layer_entries(entries@) == (match spec_layer_entries(
                            entries@.skip(i as int),
                        ) {
                            Ok(rest) => Ok::<_, ConfigErrorSpec>(
                                layers@.map_values(|l: Layer| l@) + rest,
                            ),
                            Err(e) => Err::<Seq<LayerSpec>, _>(e),
                        }),
                    decreases n - i,
                {
                    proof {
                        assert(entries@.skip(i as int)[0] == entries@[i as int]);
                        assert(entries@.skip(i as int).skip(1) =~= entries@.skip(i as int + 1));
                    }
                    match &entries[i].1 {
                        TomlTree::Text(keys_str) => {
                            match parse_key_list(keys_str.as_str()) {
                                Ok(keys) => {
                                    let ghost old_layers = layers@;
                                    let name = entries[i].0.clone();
                                    let ghost keys_view = keys@;
                                    layers.push(Layer { name, keys });
                                    proof {
                                        assert(layers@.map_values(|l: Layer| l@)
                                            =~= old_layers.map_values(|l: Layer| l@) + seq![
                                            LayerSpec {
                                                name: entries@[i as int].0@,
                                                keys: keys_view,
                                            },
                                        ]);
                                        match spec_layer_entries(entries@.skip(i as int + 1)) {
                                            Ok(rest) => {
                                                assert(old_layers.map_values(|l: Layer| l@)
                                                    + (seq![
                                                    LayerSpec {
                                                        name: entries@[i as int].0@,
                                                        keys: keys_view,
                                                    },
                                                ] + rest) =~= layers@.map_values(|l: Layer| l@)
                                                    + rest);
                                            },
                                            Err(_) => {},
                                        }
                                    }
                                },
                                Err(tok) => {
                                    return Err(ConfigError::InvalidLayerKey { token: tok });
                                },
                            }
                        },
                        _ => {
                            return Err(
                                ConfigError::ExpectedLayerString { name: entries[i].0.clone() },
                            );
                        },
                    }
                    i += 1;
                }
                proof {
                    assert(entries@.skip(n as int) =~= Seq::<(String, TomlTree)>::empty());
                    assert(layers@.map_values(|l: Layer| l@) + Seq::<LayerSpec>::empty()
                        =~= layers@.map_values(|l: Layer| l@));
                }
                Ok(Layers { layers })
            },
            _ => Err(ConfigError::ExpectedTable),
        }
    }
}

// ---------------------------------------------------------------------
// Actions
// ---------------------------------------------------------------------

/// The keys of a `"+"`-joined remap sequence, or an error naming the
/// first token that is not in the catalog.
pub open spec fn spec_parse_keys(s: Seq<char>) -> Result<Seq<Key>, ConfigErrorSpec> {
    match spec_keys_of_parts(split_on_plus(s)) {
        Ok(keys) => Ok(keys),
        Err(tok) => Err(ConfigErrorSpec::InvalidKey { token: tok }),
    }
}

/// The action described by descriptor `t`: exactly one of `command`,
/// `remap` and `move_layer` must be present as text, tried in that
/// order.
pub open spec fn spec_action_of(t: TomlTree) -> Result<ActionSpec, ConfigErrorSpec> {
    match spec_tree_get_str(t, "command"@) {
        Some(cmd) => Ok(ActionSpec::Command(cmd)),
        None => match spec_tree_get_str(t, "remap"@) {
            Some(remap) => match spec_parse_keys(remap) {
                Ok(keys) => Ok(ActionSpec::LayerRemap(keys)),
                Err(e) => Err(e),
            },
            None => match spec_tree_get_str(t, "move_layer"@) {
                Some(target) => Ok(ActionSpec::LayerShift(target)),
                None => Err(ConfigErrorSpec::UnknownAction),
            },
        },
    }
}

impl Action {
    /// Builds an action from its descriptor table, disambiguated by
    /// which of `command`, `remap` and `move_layer` is present.
    pub fn from_toml(value: &TomlTree) -> (r: Result<Self, ConfigError>)
        ensures
            match r {
                Ok(a) => spec_action_of(*value) == Ok::<_, ConfigErrorSpec>(a@),
                Err(e) => spec_action_of(*value) == Err::<ActionSpec, _>(e@),
            },
    {
        match value.get_str("command") {
            Some(command) => Ok(Action::Command(Command { value: command.clone() })),
            None => match value.get_str("remap") {
                Some(remap) => match Self::parse_keys(remap.as_str()) {
                    Ok(keys) => Ok(Action::LayerRemap(LayerRemap { to: keys })),
                    Err(e) => Err(e),
                },
                None => match value.get_str("move_layer") {
                    Some(target) => Ok(Action::LayerShift(LayerShift {
                        move_layer: target.clone(),
                    })),
                    None => Err(ConfigError::UnknownAction),
                },
            },
        }
    }

    /// The key sequence of a `"+"`-joined remap value.
    pub fn parse_keys(remap: &str) -> (r: Result<Vec<Key>, ConfigError>)
        ensures
            match r {
                Ok(keys) => spec_parse_keys(remap@) == Ok::<_, ConfigErrorSpec>(keys@),
                Err(e) => spec_parse_keys(remap@) == Err::<Seq<Key>, _>(e@),
            },
    {
        match parse_key_list(remap) {
            Ok(keys) => Ok(keys),
            Err(tok) => Err(ConfigError::InvalidKey { token: tok }),
        }
    }
}

// ---------------------------------------------------------------------
// Layer assignments
// ---------------------------------------------------------------------

/// The assignments read off one layer section's entries, or the first
/// error.  `seen` carries the keys bound by earlier entries: binding
/// one of them again is a duplicate, which is rejected.
pub open spec fn spec_assignment_entries(
    entries: Seq<(String, TomlTree)>,
    layer: LayerSpec,
    seen: Seq<Key>,
) -> Result<Seq<LayerAssignmentSpec>, ConfigErrorSpec>
    decreases entries.len(),
{
    if entries.len() == 0 {
        Ok(seq![])
    } else {
        match key_of_token(entries[0].0@) {
            None => Err(ConfigErrorSpec::InvalidKey { token: entries[0].0@ }),
            Some(key) => if seen.contains(key) {
                Err(ConfigErrorSpec::DuplicateAssignment { token: entries[0].0@ })
            } else {
                match spec_action_of(entries[0].1) {
                    Err(e) => Err(e),
                    Ok(action) => match spec_assignment_entries(
                        entries.skip(1),
                        layer,
                        seen.push(key),
                    ) {
                        Ok(rest) => Ok(
                            seq![
                                LayerAssignmentSpec {
                                    layer,
                                    key,
                                    action,
                                    next_layer: spec_tree_get_str(entries[0].1, "next_layer"@),
                                    description: spec_tree_get_str(entries[0].1, "description"@),
                                },
                            ] + rest,
                        ),
                        Err(e) => Err(e),
                    },
                }
            },
        }
    }
}

/// The assignments of one layer's section `t`.
pub open spec fn spec_assignments_of(t: TomlTree, layer: LayerSpec) -> Result<
    Seq<LayerAssignmentSpec>,
    ConfigErrorSpec,
> {
    match t {
        TomlTree::Table(entries) => spec_assignment_entries(entries@, layer, seq![]),
        _ => Err(ConfigErrorSpec::ExpectedTable),
    }
}

/// Whether `key` occurs in `keys`.
fn key_in(keys: &Vec<Key>, key: Key) -> (r: bool)
    ensures
        r == keys@.contains(key),
{
    let n = keys.len();
    let mut i: usize = 0;
    while i < n
        invariant
            i <= n,
            n == keys@.len(),
            forall|j: int| 0 <= j < i ==> keys@[j] != key,
        decreases n - i,
    {
        if keys[i] == key {
            proof {
                assert(keys@[i as int] == key);
            }
            return true;
        }
        i += 1;
    }
    false
}

impl LayerAssignment {
    /// Builds the assignments of one layer from its section of the
    /// input tree: each entry binds a trigger key to an action
    /// descriptor, with optional `next_layer` and `description`
    /// fields; a key bound twice is rejected.
    pub fn from_toml(value: &TomlTree, layer: Layer) -> (r: Result<Vec<Self>, ConfigError>)
        ensures
            match r {
                Ok(list) => spec_assignments_of(*value, layer@) == Ok::<_, ConfigErrorSpec>(
                    list@.map_values(|a: LayerAssignment| a@),
                ),
                Err(e) => spec_assignments_of(*value, layer@) == Err::<
                    Seq<LayerAssignmentSpec>,
                    _,
                >(e@),
            },
    {
        match value {
            TomlTree::Table(entries) => {
                let n = entries.len();
                let mut assignments: Vec<LayerAssignment> = Vec::new();
                let mut seen: Vec<Key> = Vec::new();
                let mut i: usize = 0;
                proof {
                    assert(entries@.skip(0) =~= entries@);
                }
                while i < n
                    invariant
                        i <= n,
                        n == entries@.len(),
                        spec_assignments_of(*value, layer@) == spec_assignment_entries(
                            entries@,
                            layer@,
                            seq![],
                        ),
                        spec_assignment_entries(entries@, layer@, seq![]) == (
                        match spec_assignment_entries(entries@.skip(i as int), layer@, seen@) {
                            Ok(rest) => Ok::<_, ConfigErrorSpec>(
                                assignments@.map_values(|a: LayerAssignment| a@) + rest,
                            ),
                            Err(e) => Err::<Seq<LayerAssignmentSpec>, _>(e),
                        }),
                    decreases n - i,
                {
                    proof {
                        assert(entries@.skip(i as int)[0] == entries@[i as int]);
                        assert(entries@.skip(i as int).skip(1) =~= entries@.skip(i as int + 1));
                    }
                    let key = match Key::from_token(entries[i].0.as_str()) {
                        Some(k) => k,
                        None => {
                            return Err(ConfigError::InvalidKey { token: entries[i].0.clone() });
                        },
                    };
                    if key_in(&seen, key) {
                        return Err(ConfigError::DuplicateAssignment {
                            token: entries[i].0.clone(),
                        });
                    }
                    let action = match Action::from_toml(&entries[i].1) {
                        Ok(a) => a,
                        Err(e) => {
                            return Err(e);
                        },
                    };
                    let next_layer = match entries[i].1.get_str("next_layer") {
                        Some(s) => Some(s.clone()),
                        None => None,
                    };
                    let description = match entries[i].1.get_str("description") {
                        Some(s) => Some(s.clone()),
                        None => None,
                    };
                    let ghost old_assignments = assignments@;
                    let assignment = LayerAssignment {
                        layer: layer.duplicate(),
                        key,
                        action,
                        next_layer,
                        description,
                    };
                    let ghost assignment_view = assignment@;
                    assignments.push(assignment);
                    seen.push(key);
                    proof {
                        assert(assignments@.map_values(|a: LayerAssignment| a@)
                            =~= old_assignments.map_values(|a: LayerAssignment| a@)
                            + seq![assignment_view]);
                        match spec_assignment_entries(
                            entries@.skip(i as int + 1),
                            layer@,
                            seen@,
                        ) {
                            Ok(rest) => {
                                assert(old_assignments.map_values(|a: LayerAssignment| a@)
                                    + (seq![assignment_view] + rest) =~= assignments@.map_values(
                                    |a: LayerAssignment| a@,
                                ) + rest);
                            },
                            Err(_) => {},
                        }
                    }
                    i += 1;
                }
                proof {
                    assert(entries@.skip(n as int) =~= Seq::<(String, TomlTree)>::empty());
                    assert(assignments@.map_values(|a: LayerAssignment| a@) + Seq::<
                        LayerAssignmentSpec,
                    >::empty() =~= assignments@.map_values(|a: LayerAssignment| a@));
                }
                Ok(assignments)
            },
            _ => Err(ConfigError::ExpectedTable),
        }
    }
}

// ---------------------------------------------------------------------
// Section lookup and the assignment collection
// ---------------------------------------------------------------------

/// The first entry whose key begins with `name`, if any: a section key
/// must start with its layer's name, and may carry a descriptive
/// suffix.
pub open spec fn spec_find_prefix_section(
    entries: Seq<(String, TomlTree)>,
    name: Seq<char>,
) -> Option<TomlTree>
    decreases entries.len(),
{
    if entries.len() == 0 {
        None
    } else if name.is_prefix_of(entries[0].0@) {
        Some(entries[0].1)
    } else {
        spec_find_prefix_section(entries.skip(1), name)
    }
}

/// The assignment section of the layer called `name` in the top-level
/// tree `t`.
pub open spec fn spec_section_for_layer(t: TomlTree, name: Seq<char>) -> Result<
    TomlTree,
    ConfigErrorSpec,
> {
    match t {
        TomlTree::Table(entries) => match spec_find_prefix_section(entries@, name) {
            Some(v) => Ok(v),
            None => Err(ConfigErrorSpec::LayerNotFound { name }),
        },
        _ => Err(ConfigErrorSpec::ExpectedTable),
    }
}

/// The assignments that follow, for each declared layer in order, from
/// that layer's section of the top-level tree `t`.
pub open spec fn spec_layer_assignments_of(t: TomlTree, layers: Seq<LayerSpec>) -> Result<
    Seq<LayerAssignmentSpec>,
    ConfigErrorSpec,
>
    decreases layers.len(),
{
    if layers.len() == 0 {
        Ok(seq![])
    } else {
        match spec_section_for_layer(t, layers[0].name) {
            Err(e) => Err(e),
            Ok(section) => match spec_assignments_of(section, layers[0]) {
                Err(e) => Err(e),
                Ok(first) => match spec_layer_assignments_of(t, layers.skip(1)) {
                    Ok(rest) => Ok(first + rest),
                    Err(e) => Err(e),
                },
            },
        }
    }
}

impl LayerAssignments {
    /// The assignment section of the layer called `name`: the first
    /// top-level entry whose key starts with that name.
    pub fn get_assignments_for_layer<'a>(name: &str, value: &'a TomlTree) -> (r: Result<
        &'a TomlTree,
        ConfigError,
    >)
        ensures
            match r {
                Ok(section) => spec_section_for_layer(*value, name@) == Ok::<_, ConfigErrorSpec>(
                    *section,
                ),
                Err(e) => spec_section_for_layer(*value, name@) == Err::<TomlTree, _>(e@),
            },
    {
        match value {
            TomlTree::Table(entries) => {
                let n = entries.len();
                let mut i: usize = 0;
                proof {
                    assert(entries@.skip(0) =~= entries@);
                }
                while i < n
                    invariant
                        i <= n,
                        n == entries@.len(),
                        spec_section_for_layer(*value, name@) == (
                        match spec_find_prefix_section(entries@, name@) {
                            Some(v) => Ok::<_, ConfigErrorSpec>(v),
                            None => Err::<TomlTree, _>(
                                ConfigErrorSpec::LayerNotFound { name: name@ },
                            ),
                        }),
                        spec_find_prefix_section(entries@, name@) == spec_find_prefix_section(
                            entries@.skip(i as int),
                            name@,
                        ),
                    decreases n - i,
                {
                    proof {
                        assert(entries@.skip(i as int)[0] == entries@[i as int]);
                        assert(entries@.skip(i as int).skip(1) =~= entries@.skip(i as int + 1));
                    }
                    if str_starts_with(entries[i].0.as_str(), name) {
                        return Ok(&entries[i].1);
                    }
                    i += 1;
                }
                proof {
                    assert(entries@.skip(n as int) =~= Seq::<(String, TomlTree)>::empty());
                }
                Err(ConfigError::LayerNotFound { name: name.to_owned() })
            },
            _ => Err(ConfigError::ExpectedTable),
        }
    }

    /// Builds every layer's assignments, walking the declared layers
    /// in order and reading each one's section of the input tree.
    pub fn from_toml(value: &TomlTree, layers: Vec<Layer>) -> (r: Result<Self, ConfigError>)
        ensures
            match r {
                Ok(list) => spec_layer_assignments_of(
                    *value,
                    layers@.map_values(|l: Layer| l@),
                ) == Ok::<_, ConfigErrorSpec>(list@.assignments),
                Err(e) => spec_layer_assignments_of(*value, layers@.map_values(|l: Layer| l@))
                    == Err::<Seq<LayerAssignmentSpec>, _>(e@),
            },
    {
        let n = layers.len();
        let mut assignments: Vec<LayerAssignment> = Vec::new();
        let mut i: usize = 0;
        proof {
            assert(layers@.map_values(|l: Layer| l@).skip(0) =~= layers@.map_values(
                |l: Layer| l@,
            ));
        }
        while i < n
            invariant
                i <= n,
                n == layers@.len(),
                n == layers@.map_values(|l: Layer| l@).len(),
                spec_layer_assignments_of(*value, layers@.map_values(|l: Layer| l@)) == (
                match spec_layer_assignments_of(
                    *value,
                    layers@.map_values(|l: Layer| l@).skip(i as int),
                ) {
                    Ok(rest) => Ok::<_, ConfigErrorSpec>(
                        assignments@.map_values(|a: LayerAssignment| a@) + rest,
                    ),
                    Err(e) => Err::<Seq<LayerAssignmentSpec>, _>(e),
                }),
            decreases n - i,
        {
            proof {
                assert(layers@.map_values(|l: Layer| l@).skip(i as int)[0] == layers@.map_values(
                    |l: Layer| l@,
                )[i as int]);
                assert(layers@.map_values(|l: Layer| l@).skip(i as int).skip(1)
                    =~= layers@.map_values(|l: Layer| l@).skip(i as int + 1));
            }
            let section = match Self::get_assignments_for_layer(layers[i].name.as_str(), value) {
                Ok(s) => s,
                Err(e) => {
                    return Err(e);
                },
            };
            let layer = layers[i].duplicate();
            let mut layer_assignments = match LayerAssignment::from_toml(section, layer) {
                Ok(list) => list,
                Err(e) => {
                    return Err(e);
                },
            };
            let ghost old_assignments = assignments@;
            let ghost added = layer_assignments@;
            assignments.append(&mut layer_assignments);
            proof {
                assert(assignments@.map_values(|a: LayerAssignment| a@) =~= old_assignments
                    .map_values(|a: LayerAssignment| a@) + added.map_values(
                    |a: LayerAssignment| a@,
                ));
                match spec_layer_assignments_of(
                    *value,
                    layers@.map_values(|l: Layer| l@).skip(i as int + 1),
                ) {
                    Ok(rest) => {
                        assert(old_assignments.map_values(|a: LayerAssignment| a@) + (added
                            .map_values(|a: LayerAssignment| a@) + rest) =~= assignments@
                            .map_values(|a: LayerAssignment| a@) + rest);
                    },
                    Err(_) => {},
                }
            }
            i += 1;
        }
        proof {
            assert(layers@.map_values(|l: Layer| l@).skip(n as int) =~= Seq::<LayerSpec>::empty());
            assert(assignments@.map_values(|a: LayerAssignment| a@) + Seq::<
                LayerAssignmentSpec,
            >::empty() =~= assignments@.map_values(|a: LayerAssignment| a@));
        }
        Ok(LayerAssignments { assignments })
    }
}

// ---------------------------------------------------------------------
// The aggregate root
// ---------------------------------------------------------------------

/// Whether `name` names a declared layer or the reserved base layer.
pub open spec fn spec_layer_declared(layers: Seq<LayerSpec>, name: Seq<char>) -> bool {
    name == BASE_LAYER@ || (exists|i: int| 0 <= i < layers.len() && layers[i].name == name)
}

/// The undeclared layer name referenced by one assignment, if any:
/// its `next_layer`, or the destination of its layer-shift action.
pub open spec fn spec_assignment_undeclared_ref(
    a: LayerAssignmentSpec,
    layers: Seq<LayerSpec>,
) -> Option<Seq<char>> {
    if a.next_layer is Some && !spec_layer_declared(layers, a.next_layer.unwrap()) {
        Some(a.next_layer.unwrap())
    } else if a.action is LayerShift && !spec_layer_declared(layers, a.action->LayerShift_0) {
        Some(a.action->LayerShift_0)
    } else {
        None
    }
}

/// The first undeclared layer name referenced by the assignments.
pub open spec fn spec_first_undeclared(
    assignments: Seq<LayerAssignmentSpec>,
    layers: Seq<LayerSpec>,
) -> Option<Seq<char>>
    decreases assignments.len(),
{
    if assignments.len() == 0 {
        None
    } else {
        match spec_assignment_undeclared_ref(assignments[0], layers) {
            Some(n) => Some(n),
            None => spec_first_undeclared(assignments.skip(1), layers),
        }
    }
}

/// The configuration read from the whole input tree: the two
/// mandatory sections, every declared layer's assignments, and the
/// check that every referenced layer name is declared.
pub open spec fn spec_configuration_of(t: TomlTree) -> Result<ConfigurationSpec, ConfigErrorSpec> {
    match spec_tree_get(t, "simple_remaps"@) {
        None => Err(ConfigErrorSpec::MissingSimpleRemaps),
        Some(remaps_t) => match spec_simple_remaps_of(remaps_t) {
            Err(e) => Err(e),
            Ok(remaps) => match spec_tree_get(t, "layers"@) {
                None => Err(ConfigErrorSpec::MissingLayers),
                Some(layers_t) => match spec_layers_of(layers_t) {
                    Err(e) => Err(e),
                    Ok(layers) => match spec_layer_assignments_of(t, layers) {
                        Err(e) => Err(e),
                        Ok(assignments) => match spec_first_undeclared(assignments, layers) {
                            Some(name) => Err(ConfigErrorSpec::UndeclaredLayer { name }),
                            None => Ok(
                                ConfigurationSpec {
                                    simple_remaps: SimpleRemapsSpec { remaps },
                                    layers: LayersSpec { layers },
                                    layer_assignments: LayerAssignmentsSpec { assignments },
                                },
                            ),
                        },
                    },
                },
            },
        },
    }
}

/// Whether `name` is a declared layer name or the base name.
fn layer_declared(layers: &Vec<Layer>, name: &str) -> (r: bool)
    ensures
        r == spec_layer_declared(layers@.map_values(|l: Layer| l@), name@),
{
    if str_eq(name, BASE_LAYER) {
        return true;
    }
    let n = layers.len();
    let mut i: usize = 0;
    while i < n
        invariant
            i <= n,
            n == layers@.len(),
            forall|j: int| 0 <= j < i ==> #[trigger] layers@[j].name@ != name@,
        decreases n - i,
    {
        if str_eq(layers[i].name.as_str(), name) {
            proof {
                assert(layers@.map_values(|l: Layer| l@)[i as int].name == name@);
            }
            return true;
        }
        i += 1;
    }
    proof {
        assert(!spec_layer_declared(layers@.map_values(|l: Layer| l@), name@));
    }
    false
}

/// The first undeclared layer name referenced by the assignments.
fn first_undeclared(assignments: &Vec<LayerAssignment>, layers: &Vec<Layer>) -> (r: Option<String>)
    ensures
        match r {
            Some(name) => spec_first_undeclared(
                assignments@.map_values(|a: LayerAssignment| a@),
                layers@.map_values(|l: Layer| l@),
            ) == Some(name@),
            None => spec_first_undeclared(
                assignments@.map_values(|a: LayerAssignment| a@),
                layers@.map_values(|l: Layer| l@),
            ) is None,
        },
{
    let n = assignments.len();
    let mut i: usize = 0;
    proof {
        assert(assignments@.map_values(|a: LayerAssignment| a@).skip(0) =~= assignments@
            .map_values(|a: LayerAssignment| a@));
    }
    while i < n
        invariant
            i <= n,
            n == assignments@.len(),
            n == assignments@.map_values(|a: LayerAssignment| a@).len(),
            spec_first_undeclared(
                assignments@.map_values(|a: LayerAssignment| a@),
                layers@.map_values(|l: Layer| l@),
            ) == spec_first_undeclared(
                assignments@.map_values(|a: LayerAssignment| a@).skip(i as int),
                layers@.map_values(|l: Layer| l@),
            ),
        decreases n - i,
    {
        proof {
            assert(assignments@.map_values(|a: LayerAssignment| a@).skip(i as int)[0]
                == assignments@.map_values(|a: LayerAssignment| a@)[i as int]);
            assert(assignments@.map_values(|a: LayerAssignment| a@).skip(i as int).skip(1)
                =~= assignments@.map_values(|a: LayerAssignment| a@).skip(i as int + 1));
        }
        match &assignments[i].next_layer {
            Some(next) => {
                if !layer_declared(layers, next.as_str()) {
                    return Some(next.clone());
                }
            },
            None => {},
        }
        match &assignments[i].action {
            Action::LayerShift(shift) => {
                if !layer_declared(layers, shift.move_layer.as_str()) {
                    return Some(shift.move_layer.clone());
                }
            },
            _ => {},
        }
        i += 1;
    }
    proof {
        assert(assignments@.map_values(|a: LayerAssignment| a@).skip(n as int) =~= Seq::<
            LayerAssignmentSpec,
        >::empty());
    }
    None
}

/// A copy of a layer list.
fn duplicate_layers(layers: &Vec<Layer>) -> (r: Vec<Layer>)
    ensures
        r@.map_values(|l: Layer| l@) == layers@.map_values(|l: Layer| l@),
{
    let n = layers.len();
    let mut r: Vec<Layer> = Vec::new();
    let mut i: usize = 0;
    while i < n
        invariant
            i <= n,
            n == layers@.len(),
            r@.len() == i,
            forall|j: int| 0 <= j < i ==> r@[j]@ == layers@[j]@,
        decreases n - i,
    {
        r.push(layers[i].duplicate());
        i += 1;
    }
    proof {
        assert(r@.map_values(|l: Layer| l@) =~= layers@.map_values(|l: Layer| l@));
    }
    r
}

impl Configuration {
    /// Builds and validates the whole configuration from the input
    /// tree.  Both top-level sections are mandatory, every declared
    /// layer must have an assignment section, and every referenced
    /// layer name must be declared or be the base name.
    pub fn from_toml(value: &TomlTree) -> (r: Result<Self, ConfigError>)
        ensures
            match r {
                Ok(c) => spec_configuration_of(*value) == Ok::<_, ConfigErrorSpec>(c@),
                Err(e) => spec_configuration_of(*value) == Err::<ConfigurationSpec, _>(e@),
            },
    {
        let remaps_tree = match value.get("simple_remaps") {
            Some(t) => t,
            None => {
                return Err(ConfigError::MissingSimpleRemaps);
            },
        };
        let simple_remaps = match SimpleRemaps::from_toml(remaps_tree) {
            Ok(r) => r,
            Err(e) => {
                return Err(e);
            },
        };
        let layers_tree = match value.get("layers") {
            Some(t) => t,
            None => {
                return Err(ConfigError::MissingLayers);
            },
        };
        let layers = match Layers::from_toml(layers_tree) {
            Ok(l) => l,
            Err(e) => {
                return Err(e);
            },
        };
        let layer_assignments = match LayerAssignments::from_toml(
            value,
            duplicate_layers(&layers.layers),
        ) {
            Ok(a) => a,
            Err(e) => {
                return Err(e);
            },
        };
        match first_undeclared(&layer_assignments.assignments, &layers.layers) {
            Some(name) => {
                return Err(ConfigError::UndeclaredLayer { name });
            },
            None => {},
        }
        let c = Configuration { simple_remaps, layers, layer_assignments };
        proof {
            assert(spec_configuration_of(*value) == Ok::<_, ConfigErrorSpec>(c@));
        }
        Ok(c)
    }
}

/// A copy of a key sequence.
fn copy_keys(keys: &Vec<Key>) -> (r: Vec<Key>)
    ensures
        r@ == keys@,
{
    let mut r: Vec<Key> = Vec::new();
    let mut i: usize = 0;
    while i < keys.len()
        invariant
            i <= keys.len(),
            r@ =~= keys@.take(i as int),
        decreases keys.len() - i,
    {
        r.push(keys[i]);
        i += 1;
    }
    proof {
        assert(r@ =~= keys@);
    }
    r
}

} // verus!
