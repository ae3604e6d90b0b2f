//! Validation of a startup pin-role configuration.
//!
//! Four consistency checks run in a fixed order, and the first violation
//! wins, so a diagnostic is reproducible: every pin with an assigned
//! level must be in use (1) and assigned output mode (2); no pin may
//! carry both levels (3); no pin may carry both modes (4).

use vstd::prelude::*;
use crate::errors::RpWebError;
use crate::settings::{GpioConfig, GpioConfigView};

verus! {

/// An optional id list as the list it stands for; an absent list
/// assigns nothing.
pub open spec fn opt_list(o: Option<Seq<i32>>) -> Seq<i32> {
    match o {
        Some(s) => s,
        None => Seq::empty(),
    }
}

/// Every id with an assigned level, low ones first.
pub open spec fn config_levels(c: GpioConfigView) -> Seq<i32> {
    opt_list(c.gpios_level_low) + opt_list(c.gpios_level_high)
}

/// The ids of `u`, in order and with repetitions, that also appear in
/// `v`.
pub open spec fn in_both(u: Seq<i32>, v: Seq<i32>) -> Seq<i32> {
    u.filter(|y: i32| v.contains(y))
}

/// Check 1: every pin with an assigned level is in the in-use list.
pub open spec fn levels_all_in_use(c: GpioConfigView) -> bool {
    forall|i: int|
        0 <= i < config_levels(c).len() ==> opt_list(c.gpios_in_use).contains(
            #[trigger] config_levels(c)[i],
        )
}

/// Check 2: every pin with an assigned level is in the output-mode
/// list.
pub open spec fn levels_all_output(c: GpioConfigView) -> bool {
    forall|i: int|
        0 <= i < config_levels(c).len() ==> opt_list(c.gpios_mode_output).contains(
            #[trigger] config_levels(c)[i],
        )
}

/// Check 3: no pin carries both levels.
pub open spec fn levels_disjoint(c: GpioConfigView) -> bool {
    forall|x: i32|
        !(#[trigger] opt_list(c.gpios_level_low).contains(x) && opt_list(
            c.gpios_level_high,
        ).contains(x))
}

/// Check 4: no pin carries both modes.
pub open spec fn modes_disjoint(c: GpioConfigView) -> bool {
    forall|x: i32|
        !(#[trigger] opt_list(c.gpios_mode_input).contains(x) && opt_list(
            c.gpios_mode_output,
        ).contains(x))
}

/// A configuration that passes all four checks.
pub open spec fn valid_config(c: GpioConfigView) -> bool {
    levels_all_in_use(c) && levels_all_output(c) && levels_disjoint(c) && modes_disjoint(c)
}

/// Return a copy of the list in `Some(..)`, or an empty list for
/// `None`.
pub fn vec_option_to_vec(option: &Option<Vec<i32>>) -> (r: Vec<i32>)
    ensures
        match *option {
            Some(v) => r@ == v@,
            None => r@ == Seq::<i32>::empty(),
        },
{
    match option {
        Some(vec) => copy_ids(vec),
        None => Vec::new(),
    }
}

/// Copy an id list element by element.
fn copy_ids(v: &Vec<i32>) -> (r: Vec<i32>)
    ensures
        r@ == v@,
{
    let mut r: Vec<i32> = Vec::new();
    let mut i: usize = 0;
    while i < v.len()
        invariant
            0 <= i <= v@.len(),
            r@ == v@.take(i as int),
        decreases v@.len() - i,
    {
        r.push(v[i]);
        proof {
            assert(r@ =~= v@.take(i + 1 as int));
        }
        i = i + 1;
    }
    proof {
        assert(v@.take(v@.len() as int) =~= v@);
    }
    r
}

/// Whether the list holds the id.
fn vec_contains(v: &Vec<i32>, x: i32) -> (r: bool)
    ensures
        r == v@.contains(x),
{
    let mut i: usize = 0;
    while i < v.len()
        invariant
            0 <= i <= v@.len(),
            forall|j: int| 0 <= j < i ==> v@[j] != x,
        decreases v@.len() - i,
    {
        if v[i] == x {
            return true;
        }
        i = i + 1;
    }
    false
}

/// Return `Some` of the ids in both `u` and `v`, else `None`.
pub fn elements_in_both_vecs(u: &Vec<i32>, v: &Vec<i32>) -> (r: Option<Vec<i32>>)
    ensures
        r matches Some(w) ==> w@ == in_both(u@, v@) && w@.len() > 0,
        r is None ==> in_both(u@, v@).len() == 0,
{
    let mut res: Vec<i32> = Vec::new();
    let mut i: usize = 0;
    proof {
        reveal(Seq::filter);
        assert(u@.take(0) =~= Seq::<i32>::empty());
    }
    while i < u.len()
        invariant
            0 <= i <= u@.len(),
            res@ == in_both(u@.take(i as int), v@),
        decreases u@.len() - i,
    {
        let keep = vec_contains(v, u[i]);
        if keep {
            res.push(u[i]);
        }
        proof {
            let pred = |y: i32| v@.contains(y);
            let prefix = u@.take(i + 1 as int);
            assert(prefix.drop_last() =~= u@.take(i as int));
            assert(prefix.last() == u@[i as int]);
            reveal(Seq::filter);
            assert(res@ == prefix.filter(pred));
        }
        i = i + 1;
    }
    proof {
        assert(u@.take(u@.len() as int) =~= u@);
    }
    if res.len() > 0 {
        Some(res)
    } else {
        None
    }
}

/// The intersection list is empty exactly when the two lists share no
/// id.
pub proof fn lemma_in_both_empty(u: Seq<i32>, v: Seq<i32>)
    ensures
        in_both(u, v).len() == 0 <==> (forall|x: i32| !(u.contains(x) && #[trigger] v.contains(x))),
        in_both(u, v).len() > 0 ==> (u.contains(in_both(u, v)[0]) && v.contains(in_both(u, v)[0])),
{
    let pred = |y: i32| v.contains(y);
    if in_both(u, v).len() == 0 {
        assert forall|x: i32| !(u.contains(x) && #[trigger] v.contains(x)) by {
            if u.contains(x) && v.contains(x) {
                let i = choose|i: int| 0 <= i < u.len() && u[i] == x;
                u.lemma_filter_contains(pred, i);
            }
        }
    } else {
        let w = in_both(u, v);
        assert(w.contains(w[0]));
        u.lemma_filter_contains_rev(pred, w[0]);
        u.lemma_filter_pred(pred, 0);
    }
}

/// A pin assigned both levels makes every configuration invalid,
/// whatever the other lists hold.
pub proof fn lemma_both_levels_never_valid(c: GpioConfigView, p: i32)
    requires
        opt_list(c.gpios_level_low).contains(p),
        opt_list(c.gpios_level_high).contains(p),
    ensures
        !valid_config(c),
{
}

/// Validate a startup configuration: succeeds exactly on valid
/// configurations, and otherwise reports the first violated check, in
/// the fixed order of the four checks.
pub fn validate_setup(gpioconfig: &GpioConfig) -> (r: Result<(), RpWebError>)
    ensures
        r is Ok <==> valid_config(gpioconfig@),
        r matches Err(e) ==> e matches RpWebError::ConfigError(_),
        !levels_all_in_use(gpioconfig@) ==> (r matches Err(e) && e.spec_message()
            == "not in_use"@),
        levels_all_in_use(gpioconfig@) && !levels_all_output(gpioconfig@) ==> (r matches Err(e)
            && e.spec_message() == "not output"@),
        levels_all_in_use(gpioconfig@) && levels_all_output(gpioconfig@) && !levels_disjoint(
            gpioconfig@,
        ) ==> (r matches Err(e) && e.spec_message() == "pin assigned both levels"@),
        levels_all_in_use(gpioconfig@) && levels_all_output(gpioconfig@) && levels_disjoint(
            gpioconfig@,
        ) && !modes_disjoint(gpioconfig@) ==> (r matches Err(e) && e.spec_message()
            == "pin assigned both modes"@),
{
    let gpios_in_use = vec_option_to_vec(&gpioconfig.gpios_in_use);
    let gpios_mode_output = vec_option_to_vec(&gpioconfig.gpios_mode_output);
    let gpios_mode_input = vec_option_to_vec(&gpioconfig.gpios_mode_input);
    let gpios_level_low = vec_option_to_vec(&gpioconfig.gpios_level_low);
    let gpios_level_high = vec_option_to_vec(&gpioconfig.gpios_level_high);

    // Every id with an assigned level, low ones first.
    let mut gpio_all_levels: Vec<i32> = Vec::new();
    let mut i: usize = 0;
    while i < gpios_level_low.len()
        invariant
            0 <= i <= gpios_level_low@.len(),
            gpio_all_levels@ == gpios_level_low@.take(i as int),
        decreases gpios_level_low@.len() - i,
    {
        gpio_all_levels.push(gpios_level_low[i]);
        proof {
            assert(gpio_all_levels@ =~= gpios_level_low@.take(i + 1 as int));
        }
        i = i + 1;
    }
    proof {
        assert(gpios_level_low@.take(gpios_level_low@.len() as int) =~= gpios_level_low@);
    }
    let mut i: usize = 0;
    while i < gpios_level_high.len()
        invariant
            0 <= i <= gpios_level_high@.len(),
            gpio_all_levels@ == gpios_level_low@ + gpios_level_high@.take(i as int),
        decreases gpios_level_high@.len() - i,
    {
        gpio_all_levels.push(gpios_level_high[i]);
        proof {
            assert(gpio_all_levels@ =~= gpios_level_low@ + gpios_level_high@.take(i + 1 as int));
        }
        i = i + 1;
    }
    proof {
        assert(gpios_level_high@.take(gpios_level_high@.len() as int) =~= gpios_level_high@);
        assert(gpio_all_levels@ == config_levels(gpioconfig@));
    }

    // Check 1: every pin with an assigned level must be in use.
    let mut i: usize = 0;
    while i < gpio_all_levels.len()
        invariant
            0 <= i <= gpio_all_levels@.len(),
            gpio_all_levels@ == config_levels(gpioconfig@),
            gpios_in_use@ == opt_list(gpioconfig@.gpios_in_use),
            forall|j: int| 0 <= j < i ==> gpios_in_use@.contains(#[trigger] gpio_all_levels@[j]),
        decreases gpio_all_levels@.len() - i,
    {
        if !vec_contains(&gpios_in_use, gpio_all_levels[i]) {
            return Err(RpWebError::ConfigError(String::from_str("not in_use")));
        }
        i = i + 1;
    }
    proof {
        assert(levels_all_in_use(gpioconfig@));
    }

    // Check 2: every pin with an assigned level must be set to output.
    let mut i: usize = 0;
    while i < gpio_all_levels.len()
        invariant
            0 <= i <= gpio_all_levels@.len(),
            gpio_all_levels@ == config_levels(gpioconfig@),
            gpios_mode_output@ == opt_list(gpioconfig@.gpios_mode_output),
            levels_all_in_use(gpioconfig@),
            forall|j: int|
                0 <= j < i ==> gpios_mode_output@.contains(#[trigger] gpio_all_levels@[j]),
        decreases gpio_all_levels@.len() - i,
    {
        if !vec_contains(&gpios_mode_output, gpio_all_levels[i]) {
            return Err(RpWebError::ConfigError(String::from_str("not output")));
        }
        i = i + 1;
    }
    proof {
        assert(levels_all_output(gpioconfig@));
    }

    // Check 3: no pin may be assigned both levels.
    let both_high_and_low = elements_in_both_vecs(&gpios_level_low, &gpios_level_high);
    proof {
        lemma_in_both_empty(gpios_level_low@, gpios_level_high@);
    }
    if both_high_and_low.is_some() {
        return Err(RpWebError::ConfigError(String::from_str("pin assigned both levels")));
    }

    // Check 4: no pin may be assigned both modes.
    let both_input_and_output = elements_in_both_vecs(&gpios_mode_input, &gpios_mode_output);
    proof {
        lemma_in_both_empty(gpios_mode_input@, gpios_mode_output@);
    }
    if both_input_and_output.is_some() {
        proof {
            let wit = in_both(gpios_mode_input@, gpios_mode_output@)[0];
            assert(opt_list(gpioconfig@.gpios_mode_input).contains(wit));
            assert(opt_list(gpioconfig@.gpios_mode_output).contains(wit));
            assert(!modes_disjoint(gpioconfig@));
        }
        return Err(RpWebError::ConfigError(String::from_str("pin assigned both modes")));
    }

    Ok(())
}

} // verus!
