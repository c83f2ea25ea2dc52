//! What the module registers with its host shell, as plain data: one builtin
//! command and nothing else. The host glue lowers these descriptions into
//! the host's own calling convention; nothing here depends on it.

use vstd::prelude::*;

verus! {

/// A builtin command the module offers to the host.
pub struct BuiltinDef {
    /// The name the command is invoked under.
    pub name: String,
    /// The fewest arguments the host may pass it.
    pub minargs: i32,
    /// The most arguments the host may pass it, -1 for no bound.
    pub maxargs: i32,
    /// The host's flag word for the command; none are set.
    pub flags: i32,
    /// The host's function id for the command.
    pub funcid: i32,
}

/// A condition definition the module could register; it registers none.
pub struct Conddef {}

/// A math function the module could register; it registers none.
pub struct MathFunc {}

/// A parameter definition the module could register; it registers none.
pub struct Paramdef {}

/// Everything the module registers with the host.
pub struct FeatureSet {
    pub builtins: Vec<BuiltinDef>,
    pub conddefs: Vec<Conddef>,
    pub mathfuncs: Vec<MathFunc>,
    pub paramdefs: Vec<Paramdef>,
    /// How many of the features are abstract ones; none are.
    pub n_abstract: i32,
}

/// The module's one registration: the prompt builtin, taking any number of
/// arguments, and no other feature of any kind.
pub fn module_features() -> (r: FeatureSet)
    ensures
        r.builtins@.len() == 1,
        r.builtins@[0].name@ == "_rust-prompt-alpha"@,
        r.builtins@[0].minargs == 0,
        r.builtins@[0].maxargs == -1,
        r.builtins@[0].flags == 0,
        r.builtins@[0].funcid == 0,
        r.conddefs@.len() == 0,
        r.mathfuncs@.len() == 0,
        r.paramdefs@.len() == 0,
        r.n_abstract == 0,
{
    let mut builtins: Vec<BuiltinDef> = Vec::new();
    builtins.push(
        BuiltinDef {
            name: "_rust-prompt-alpha".to_owned(),
            minargs: 0,
            maxargs: -1,
            flags: 0,
            funcid: 0,
        },
    );
    FeatureSet {
        builtins,
        conddefs: Vec::new(),
        mathfuncs: Vec::new(),
        paramdefs: Vec::new(),
        n_abstract: 0,
    }
}

} // verus!
