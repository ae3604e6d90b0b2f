//! Applying a validated startup configuration to the store and the
//! hardware gate.
//!
//! The five lists are applied in a fixed order: in-use flags, output
//! modes, input modes, low levels, high levels. Levels touch the
//! hardware gate before the store, one write per listed pin. Callers
//! must validate the configuration first and treat any error here as
//! fatal; a failing application may leave earlier assignments applied.

use vstd::prelude::*;
use crate::errors::RpWebError;
use crate::hardware::{bump_n, HardwareGate};
use crate::models::GpioView;
use crate::settings::{GpioConfig, GpioConfigView};
use crate::store::{known_gpio, with_in_use, with_level, with_mode, StateStore};
use crate::validation::{opt_list, vec_option_to_vec};

verus! {

/// Every id the configuration names is a known GPIO id.
pub open spec fn config_all_known(c: GpioConfigView) -> bool {
    &&& forall|i: int|
        0 <= i < opt_list(c.gpios_in_use).len() ==> known_gpio(
            #[trigger] opt_list(c.gpios_in_use)[i] as int,
        )
    &&& forall|i: int|
        0 <= i < opt_list(c.gpios_mode_output).len() ==> known_gpio(
            #[trigger] opt_list(c.gpios_mode_output)[i] as int,
        )
    &&& forall|i: int|
        0 <= i < opt_list(c.gpios_mode_input).len() ==> known_gpio(
            #[trigger] opt_list(c.gpios_mode_input)[i] as int,
        )
    &&& forall|i: int|
        0 <= i < opt_list(c.gpios_level_low).len() ==> known_gpio(
            #[trigger] opt_list(c.gpios_level_low)[i] as int,
        )
    &&& forall|i: int|
        0 <= i < opt_list(c.gpios_level_high).len() ==> known_gpio(
            #[trigger] opt_list(c.gpios_level_high)[i] as int,
        )
}

/// The configuration names the id in at least one of its five lists.
pub open spec fn config_touches(c: GpioConfigView, id: i32) -> bool {
    ||| opt_list(c.gpios_in_use).contains(id)
    ||| opt_list(c.gpios_mode_output).contains(id)
    ||| opt_list(c.gpios_mode_input).contains(id)
    ||| opt_list(c.gpios_level_low).contains(id)
    ||| opt_list(c.gpios_level_high).contains(id)
}

/// One record after the whole configuration is applied over it. Input
/// mode is applied after output mode and a high level after a low one,
/// so on a pin named in two lists of one field the later list wins.
pub open spec fn apply_pin(c: GpioConfigView, id: i32, g: GpioView, now: i64) -> GpioView {
    GpioView {
        gpio_id: g.gpio_id,
        in_use: if opt_list(c.gpios_in_use).contains(id) {
            1
        } else {
            g.in_use
        },
        gpio_mode: if opt_list(c.gpios_mode_input).contains(id) {
            Some("input"@)
        } else if opt_list(c.gpios_mode_output).contains(id) {
            Some("output"@)
        } else {
            g.gpio_mode
        },
        gpio_level: if opt_list(c.gpios_level_high).contains(id) {
            Some("high"@)
        } else if opt_list(c.gpios_level_low).contains(id) {
            Some("low"@)
        } else {
            g.gpio_level
        },
        last_change: if config_touches(c, id) {
            Some(now)
        } else {
            g.last_change
        },
    }
}

/// The store after the whole configuration is applied.
pub open spec fn spec_apply_config(
    m: Map<int, GpioView>,
    c: GpioConfigView,
    now: i64,
) -> Map<int, GpioView> {
    Map::new(|id: int| known_gpio(id), |id: int| apply_pin(c, id as i32, m[id], now))
}

/// The store after the first `n` ids of one list have their in-use
/// flag set.
pub open spec fn stage_in_use(
    m: Map<int, GpioView>,
    lst: Seq<i32>,
    n: int,
    now: i64,
) -> Map<int, GpioView> {
    Map::new(
        |id: int| known_gpio(id),
        |id: int|
            if lst.take(n).contains(id as i32) {
                with_in_use(m[id], 1, now)
            } else {
                m[id]
            },
    )
}

/// The store after the first `n` ids of one list have their mode set.
pub open spec fn stage_mode(
    m: Map<int, GpioView>,
    lst: Seq<i32>,
    n: int,
    mode: Seq<char>,
    now: i64,
) -> Map<int, GpioView> {
    Map::new(
        |id: int| known_gpio(id),
        |id: int|
            if lst.take(n).contains(id as i32) {
                with_mode(m[id], mode, now)
            } else {
                m[id]
            },
    )
}

/// The store after the first `n` ids of one list have their level set.
pub open spec fn stage_level(
    m: Map<int, GpioView>,
    lst: Seq<i32>,
    n: int,
    level: Seq<char>,
    now: i64,
) -> Map<int, GpioView> {
    Map::new(
        |id: int| known_gpio(id),
        |id: int|
            if lst.take(n).contains(id as i32) {
                with_level(m[id], level, now)
            } else {
                m[id]
            },
    )
}

/// Membership in a prefix one element longer.
proof fn lemma_take_one_more(lst: Seq<i32>, i: int)
    requires
        0 <= i < lst.len(),
    ensures
        forall|y: i32|
            #[trigger] lst.take(i + 1).contains(y) <==> (lst.take(i).contains(y) || y == lst[i]),
{
    assert forall|y: i32|
        #[trigger] lst.take(i + 1).contains(y) <==> (lst.take(i).contains(y) || y
            == lst[i]) by {
        if lst.take(i + 1).contains(y) {
            let k = choose|k: int| 0 <= k < lst.take(i + 1).len() && #[trigger] lst.take(i + 1)[k] == y;
            if k < i {
                assert(lst.take(i)[k] == y);
            }
        }
        if lst.take(i).contains(y) {
            let k = choose|k: int| 0 <= k < lst.take(i).len() && #[trigger] lst.take(i)[k] == y;
            assert(lst.take(i + 1)[k] == y);
        }
        if y == lst[i] {
            assert(lst.take(i + 1)[i] == y);
        }
    }
}

/// Apply a startup configuration: set the in-use flags, then the output
/// and input modes, then write each assigned level to the hardware gate
/// and commit it to the store.
///
/// Succeeds exactly when every named id is known; the store then equals
/// [`spec_apply_config`] of its old contents, and the hardware counter carries one
/// write per entry of the two level lists. A failure reports the
/// offending update — an internal error for an unknown id, a range
/// error for an id the hardware cannot address — and may leave the
/// assignments made before it.
pub fn apply_startup_config(
    store: &mut StateStore,
    gate: &mut HardwareGate,
    gpioconfig: &GpioConfig,
    now: i64,
) -> (r: Result<(), RpWebError>)
    requires
        old(store).wf(),
    ensures
        final(store).wf(),
        r is Ok <==> config_all_known(gpioconfig@),
        r is Ok ==> final(store)@ == spec_apply_config(old(store)@, gpioconfig@, now),
        r is Ok ==> final(gate).count() == bump_n(
            old(gate).count(),
            (opt_list(gpioconfig@.gpios_level_low).len() + opt_list(
                gpioconfig@.gpios_level_high,
            ).len()) as nat,
        ),
        r matches Err(e) ==> (e matches RpWebError::InternalError(_) || e matches
            RpWebError::RangeError(_)),
{
    let ghost m0 = store@;
    let v_in_use = vec_option_to_vec(&gpioconfig.gpios_in_use);
    let v_output = vec_option_to_vec(&gpioconfig.gpios_mode_output);
    let v_input = vec_option_to_vec(&gpioconfig.gpios_mode_input);
    let v_low = vec_option_to_vec(&gpioconfig.gpios_level_low);
    let v_high = vec_option_to_vec(&gpioconfig.gpios_level_high);

    // Should be marked managed.
    let mut i: usize = 0;
    proof {
        store.lemma_dom();
        assert(store@ =~= stage_in_use(m0, v_in_use@, 0, now));
    }
    while i < v_in_use.len()
        invariant
            0 <= i <= v_in_use@.len(),
            store.wf(),
            v_in_use@ == opt_list(gpioconfig@.gpios_in_use),
            store@ == stage_in_use(m0, v_in_use@, i as int, now),
            forall|j: int| 0 <= j < i ==> known_gpio(#[trigger] v_in_use@[j] as int),
        decreases v_in_use@.len() - i,
    {
        match store.set_in_use(v_in_use[i], 1, now) {
            Ok(_) => (),
            Err(e) => {
                proof {
                    assert(!known_gpio(opt_list(gpioconfig@.gpios_in_use)[i as int] as int));
                    assert(!config_all_known(gpioconfig@));
                }
                return Err(e);
            },
        }
        proof {
            store.lemma_dom();
            lemma_take_one_more(v_in_use@, i as int);
            assert(store@ =~= stage_in_use(m0, v_in_use@, i + 1 as int, now));
        }
        i = i + 1;
    }
    proof {
        assert(v_in_use@.take(v_in_use@.len() as int) =~= v_in_use@);
    }
    let ghost m1 = store@;

    // Should be set to output.
    let mut i: usize = 0;
    proof {
        store.lemma_dom();
        assert(store@ =~= stage_mode(m1, v_output@, 0, "output"@, now));
    }
    while i < v_output.len()
        invariant
            0 <= i <= v_output@.len(),
            store.wf(),
            v_output@ == opt_list(gpioconfig@.gpios_mode_output),
            store@ == stage_mode(m1, v_output@, i as int, "output"@, now),
            forall|j: int| 0 <= j < i ==> known_gpio(#[trigger] v_output@[j] as int),
        decreases v_output@.len() - i,
    {
        match store.set_mode(v_output[i], "output", now) {
            Ok(_) => (),
            Err(e) => {
                proof {
                    assert(!known_gpio(opt_list(gpioconfig@.gpios_mode_output)[i as int] as int));
                    assert(!config_all_known(gpioconfig@));
                }
                return Err(e);
            },
        }
        proof {
            store.lemma_dom();
            lemma_take_one_more(v_output@, i as int);
            assert(store@ =~= stage_mode(m1, v_output@, i + 1 as int, "output"@, now));
        }
        i = i + 1;
    }
    proof {
        assert(v_output@.take(v_output@.len() as int) =~= v_output@);
    }
    let ghost m2 = store@;

    // Should be set to input.
    let mut i: usize = 0;
    proof {
        store.lemma_dom();
        assert(store@ =~= stage_mode(m2, v_input@, 0, "input"@, now));
    }
    while i < v_input.len()
        invariant
            0 <= i <= v_input@.len(),
            store.wf(),
            v_input@ == opt_list(gpioconfig@.gpios_mode_input),
            store@ == stage_mode(m2, v_input@, i as int, "input"@, now),
            forall|j: int| 0 <= j < i ==> known_gpio(#[trigger] v_input@[j] as int),
        decreases v_input@.len() - i,
    {
        match store.set_mode(v_input[i], "input", now) {
            Ok(_) => (),
            Err(e) => {
                proof {
                    assert(!known_gpio(opt_list(gpioconfig@.gpios_mode_input)[i as int] as int));
                    assert(!config_all_known(gpioconfig@));
                }
                return Err(e);
            },
        }
        proof {
            store.lemma_dom();
            lemma_take_one_more(v_input@, i as int);
            assert(store@ =~= stage_mode(m2, v_input@, i + 1 as int, "input"@, now));
        }
        i = i + 1;
    }
    proof {
        assert(v_input@.take(v_input@.len() as int) =~= v_input@);
    }
    let ghost m3 = store@;
    let ghost count3 = gate.count();

    // Should be set to low: hardware first, then the store.
    let mut i: usize = 0;
    proof {
        store.lemma_dom();
        assert(store@ =~= stage_level(m3, v_low@, 0, "low"@, now));
    }
    while i < v_low.len()
        invariant
            0 <= i <= v_low@.len(),
            store.wf(),
            v_low@ == opt_list(gpioconfig@.gpios_level_low),
            store@ == stage_level(m3, v_low@, i as int, "low"@, now),
            gate.count() == bump_n(count3, i as nat),
            forall|j: int| 0 <= j < i ==> known_gpio(#[trigger] v_low@[j] as int),
        decreases v_low@.len() - i,
    {
        match gate.set_level(v_low[i], "low") {
            Ok(_) => (),
            Err(e) => {
                proof {
                    assert(!known_gpio(opt_list(gpioconfig@.gpios_level_low)[i as int] as int));
                    assert(!config_all_known(gpioconfig@));
                }
                return Err(e);
            },
        }
        match store.set_level(v_low[i], "low", now) {
            Ok(_) => (),
            Err(e) => {
                proof {
                    assert(!known_gpio(opt_list(gpioconfig@.gpios_level_low)[i as int] as int));
                    assert(!config_all_known(gpioconfig@));
                }
                return Err(e);
            },
        }
        proof {
            store.lemma_dom();
            lemma_take_one_more(v_low@, i as int);
            assert(store@ =~= stage_level(m3, v_low@, i + 1 as int, "low"@, now));
        }
        i = i + 1;
    }
    proof {
        assert(v_low@.take(v_low@.len() as int) =~= v_low@);
    }
    let ghost m4 = store@;
    let ghost count4 = gate.count();

    // Should be set to high: hardware first, then the store.
    let mut i: usize = 0;
    proof {
        store.lemma_dom();
        assert(store@ =~= stage_level(m4, v_high@, 0, "high"@, now));
    }
    while i < v_high.len()
        invariant
            0 <= i <= v_high@.len(),
            store.wf(),
            v_high@ == opt_list(gpioconfig@.gpios_level_high),
            store@ == stage_level(m4, v_high@, i as int, "high"@, now),
            gate.count() == bump_n(count4, i as nat),
            forall|j: int| 0 <= j < i ==> known_gpio(#[trigger] v_high@[j] as int),
        decreases v_high@.len() - i,
    {
        match gate.set_level(v_high[i], "high") {
            Ok(_) => (),
            Err(e) => {
                proof {
                    assert(!known_gpio(opt_list(gpioconfig@.gpios_level_high)[i as int] as int));
                    assert(!config_all_known(gpioconfig@));
                }
                return Err(e);
            },
        }
        match store.set_level(v_high[i], "high", now) {
            Ok(_) => (),
            Err(e) => {
                proof {
                    assert(!known_gpio(opt_list(gpioconfig@.gpios_level_high)[i as int] as int));
                    assert(!config_all_known(gpioconfig@));
                }
                return Err(e);
            },
        }
        proof {
            store.lemma_dom();
            lemma_take_one_more(v_high@, i as int);
            assert(store@ =~= stage_level(m4, v_high@, i + 1 as int, "high"@, now));
        }
        i = i + 1;
    }
    proof {
        store.lemma_dom();
        assert(v_high@.take(v_high@.len() as int) =~= v_high@);
        lemma_bump_n_add(old(gate).count(), v_low@.len() as nat, v_high@.len() as nat);
        assert forall|id: int| known_gpio(id) implies stage_level(m4, v_high@, v_high@.len() as int, "high"@, now)[id]
            == spec_apply_config(m0, gpioconfig@, now)[id] by {
        }
        assert(store@ =~= spec_apply_config(m0, gpioconfig@, now));
    }
    Ok(())
}

/// Writes compose: `n + k` writes in a row are `k` writes after `n`.
proof fn lemma_bump_n_add(c0: u64, n: nat, k: nat)
    ensures
        bump_n(bump_n(c0, n), k) == bump_n(c0, n + k),
    decreases k,
{
    if k > 0 {
        lemma_bump_n_add(c0, n, (k - 1) as nat);
    }
}

} // verus!
