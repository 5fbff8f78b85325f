//! Configuration of the FERAL linear solver.
use crate::decimal::D0;
use crate::number::Number;
use crate::options::integer_set;
use crate::options::numeric_or;
use crate::options::numeric_set;
use crate::options::switch_of;
use crate::options::switch_or;
use crate::options::switch_set;
use crate::options::text_set;
use crate::options::OptionsList;
use crate::options::OptionsView;
use crate::text::same;
use vstd::prelude::*;

verus! {

/// Knobs of the FERAL backend.
#[derive(Clone, Copy, Debug, PartialEq, Eq, Structural)]
pub struct FeralConfig {
    /// Unset inherits the backend's own default.
    pub cascade_break: Option<bool>,
    pub fma: bool,
    /// Whether the backend runs in parallel; unset inherits its own default.
    pub parallel: Option<bool>,
    pub refine: bool,
    pub increase_quality: bool,
    /// Read where `refine` is on.
    pub refine_max_steps: usize,
    /// Read where `refine` is on; 0 switches the check before refinement off.
    pub refine_target: Number,
    /// Unset inherits the backend's own default.
    pub static_pivoting: Option<bool>,
    pub singular_pivot_floor: Number,
    /// Unset keeps a floor that grows with the dimension.
    pub inertia_pivot_floor: Option<Number>,
    /// Unset inherits the backend's own default.
    pub min_par_flops: Option<u64>,
    pub pivtol: Number,
    /// The ordering method, by the backend's code for it.
    pub ordering: u32,
    /// The scaling strategy, by the backend's code for it.
    pub scaling: u32,
}

/// What the environment and the backend say of a configuration: the one that
/// the environment gives, whether the environment chose its `refine`, and the
/// backend's codes for the method names that the options hold, where it knows
/// them.
#[derive(Clone, Copy, Debug, PartialEq, Eq, Structural)]
pub struct FeralSurroundings {
    pub from_env: FeralConfig,
    pub refine_in_env: bool,
    pub ordering_code: Option<u32>,
    pub scaling_code: Option<u32>,
}

impl FeralConfig {
    /// The same configuration for a backend that runs in one thread.
    pub fn serial(self) -> (r: FeralConfig)
        ensures
            r == (FeralConfig { parallel: Some(false), ..self }),
    {
        let mut r = self;
        r.parallel = Some(false);
        r
    }
}

/// Whether the caller asked for a limited-memory Hessian.
pub open spec fn limited_memory(o: OptionsView) -> bool {
    text_set(o, "hessian_approximation"@) == Some("limited-memory"@)
}

/// Whether the backend refines: an explicit option decides; failing that the
/// environment; failing that the limited-memory path goes without, and any
/// other takes the registered default.
pub open spec fn refines(o: OptionsView, s: FeralSurroundings) -> bool {
    match switch_set(o, "feral_refine"@) {
        Some(v) => v,
        None => if s.refine_in_env {
            s.from_env.refine
        } else if limited_memory(o) {
            false
        } else {
            match switch_of(o, "feral_refine"@) {
                Some(v) => v,
                None => s.from_env.refine,
            }
        },
    }
}

/// The switch that the caller set, or what was there.
pub open spec fn tri_state(o: OptionsView, name: Seq<char>, was: Option<bool>) -> Option<bool> {
    match switch_set(o, name) {
        Some(v) => Some(v),
        None => was,
    }
}

/// The backend's code for the method that the caller named. A name that the
/// backend does not know changes nothing.
pub open spec fn method_code(o: OptionsView, name: Seq<char>, code: Option<u32>, was: u32) -> u32 {
    match code {
        Some(c) => if text_set(o, name) is Some {
            c
        } else {
            was
        },
        None => was,
    }
}

/// The options that the caller set, over what the environment gives.
pub open spec fn feral_config_of(o: OptionsView, s: FeralSurroundings) -> FeralConfig {
    let e = s.from_env;
    FeralConfig {
        cascade_break: tri_state(o, "feral_cascade_break"@, e.cascade_break),
        fma: switch_or(o, "feral_fma"@, e.fma),
        parallel: e.parallel,
        refine: refines(o, s),
        increase_quality: switch_or(o, "feral_increase_quality"@, e.increase_quality),
        refine_max_steps: match integer_set(o, "feral_refine_steps"@) {
            Some(v) => if v > 0 {
                v as usize
            } else {
                0
            },
            None => e.refine_max_steps,
        },
        refine_target: match numeric_set(o, "feral_refine_target"@) {
            Some(v) => v.max_spec(Number { bits: D0 }),
            None => e.refine_target,
        },
        static_pivoting: tri_state(o, "feral_static_pivoting"@, e.static_pivoting),
        singular_pivot_floor: numeric_or(o, "feral_singular_pivot_floor"@, e.singular_pivot_floor),
        inertia_pivot_floor: match numeric_set(o, "feral_inertia_pivot_floor"@) {
            Some(v) => Some(v),
            None => e.inertia_pivot_floor,
        },
        min_par_flops: match numeric_set(o, "feral_min_par_flops"@) {
            Some(v) => Some(v.as_u64_spec()),
            None => e.min_par_flops,
        },
        pivtol: numeric_or(o, "feral_pivtol"@, e.pivtol),
        ordering: method_code(o, "feral_ordering"@, s.ordering_code, e.ordering),
        scaling: method_code(o, "feral_scaling"@, s.scaling_code, e.scaling),
    }
}

fn read_tri_state(o: &OptionsList, name: &str, was: Option<bool>) -> (r: Option<bool>)
    ensures
        r == tri_state(o@, name@, was),
{
    match o.set_switch(name) {
        Some(v) => Some(v),
        None => was,
    }
}

fn read_code(o: &OptionsList, name: &str, code: Option<u32>, was: u32) -> (r: u32)
    ensures
        r == method_code(o@, name@, code, was),
{
    match code {
        Some(c) => {
            if o.set_text(name).is_some() {
                c
            } else {
                was
            }
        },
        None => was,
    }
}

fn read_refine(o: &OptionsList, surroundings: &FeralSurroundings) -> (r: bool)
    ensures
        r == refines(o@, *surroundings),
{
    let mut refine = surroundings.from_env.refine;
    if !surroundings.refine_in_env {
        // The registered default counts here, not only what the caller set.
        if let Some((v, _set)) = o.get_bool_value("feral_refine") {
            refine = v;
        }
        if let Some(s) = o.set_text("hessian_approximation") {
            if same(s.as_str(), "limited-memory") {
                refine = false;
            }
        }
    }
    o.switch("feral_refine", refine)
}

/// Reads the `feral_*` options that the caller set, over what the environment
/// gives.
pub fn feral_config_from_options(options: &OptionsList, surroundings: &FeralSurroundings) -> (cfg:
    FeralConfig)
    ensures
        cfg == feral_config_of(options@, *surroundings),
{
    let e = surroundings.from_env;
    FeralConfig {
        cascade_break: read_tri_state(options, "feral_cascade_break", e.cascade_break),
        fma: options.switch("feral_fma", e.fma),
        parallel: e.parallel,
        refine: read_refine(options, surroundings),
        increase_quality: options.switch("feral_increase_quality", e.increase_quality),
        refine_max_steps: match options.set_integer("feral_refine_steps") {
            Some(v) => {
                if v > 0 {
                    v as usize
                } else {
                    0
                }
            },
            None => e.refine_max_steps,
        },
        refine_target: match options.set_numeric("feral_refine_target") {
            Some(v) => v.larger(Number { bits: D0 }),
            None => e.refine_target,
        },
        static_pivoting: read_tri_state(options, "feral_static_pivoting", e.static_pivoting),
        singular_pivot_floor: options.numeric("feral_singular_pivot_floor", e.singular_pivot_floor),
        inertia_pivot_floor: match options.set_numeric("feral_inertia_pivot_floor") {
            Some(v) => Some(v),
            None => e.inertia_pivot_floor,
        },
        min_par_flops: match options.set_numeric("feral_min_par_flops") {
            Some(v) => Some(v.as_u64()),
            None => e.min_par_flops,
        },
        pivtol: options.numeric("feral_pivtol", e.pivtol),
        ordering: read_code(options, "feral_ordering", surroundings.ordering_code, e.ordering),
        scaling: read_code(options, "feral_scaling", surroundings.scaling_code, e.scaling),
    }
}

/// Whether the backend refines is decided by the option, then the environment,
/// then the kind of Hessian, then the registered default.
pub proof fn law_refinement_precedence(o: OptionsView, s: FeralSurroundings, v: bool)
    ensures
        switch_set(o, "feral_refine"@) == Some(v) ==> feral_config_of(o, s).refine == v,
        switch_set(o, "feral_refine"@) is None && s.refine_in_env ==> feral_config_of(o, s).refine
            == s.from_env.refine,
        switch_set(o, "feral_refine"@) is None && !s.refine_in_env && limited_memory(o)
            ==> !feral_config_of(o, s).refine,
        switch_set(o, "feral_refine"@) is None && !s.refine_in_env && !limited_memory(o)
            && switch_of(o, "feral_refine"@) == Some(v) ==> feral_config_of(o, s).refine == v,
{
}

} // verus!
