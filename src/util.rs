//! A selection index that wraps around at both ends of a list.
use vstd::prelude::*;

verus! {

/// Index of the selected row among `size` rows; stepping past either end
/// wraps to the other.
pub struct CircularCounter {
    pub size: usize,
    pub selected: usize,
}

/// The index after one step forward.
pub open spec fn next_index(size: nat, selected: nat) -> nat
    recommends
        size > 0,
{
    ((selected + 1) as int % (size as int)) as nat
}

/// The index after one step back.
pub open spec fn prev_index(size: nat, selected: nat) -> nat
    recommends
        size > 0,
{
    if selected == 0 {
        (size - 1) as nat
    } else {
        (selected - 1) as nat
    }
}

/// The index after `k` steps forward.
pub open spec fn next_times(size: nat, selected: nat, k: nat) -> nat
    decreases k,
{
    if k == 0 {
        selected
    } else {
        next_index(size, next_times(size, selected, (k - 1) as nat))
    }
}

/// The index after `k` steps back.
pub open spec fn prev_times(size: nat, selected: nat, k: nat) -> nat
    decreases k,
{
    if k == 0 {
        selected
    } else {
        prev_index(size, prev_times(size, selected, (k - 1) as nat))
    }
}

impl CircularCounter {
    /// The list is not empty and the selection lies inside it.
    pub open spec fn wf(&self) -> bool {
        0 < self.size && self.selected < self.size
    }

    /// Moves the selection one row forward, from the last row to the first.
    pub fn next(&mut self) -> (r: usize)
        requires
            old(self).wf(),
        ensures
            final(self).wf(),
            final(self).size == old(self).size,
            final(self).selected as nat == next_index(old(self).size as nat, old(self).selected as nat),
            r == final(self).selected,
    {
        self.selected = (self.selected + 1) % self.size;
        self.selected
    }

    /// Moves the selection one row back, from the first row to the last.
    pub fn prev(&mut self) -> (r: usize)
        requires
            old(self).wf(),
        ensures
            final(self).wf(),
            final(self).size == old(self).size,
            final(self).selected as nat == prev_index(old(self).size as nat, old(self).selected as nat),
            r == final(self).selected,
    {
        if self.selected == 0 {
            self.selected = self.size - 1;
        } else {
            self.selected -= 1;
        }
        self.selected
    }
}

proof fn lemma_next_times_value(size: nat, selected: nat, k: nat)
    requires
        0 < size,
        selected < size,
    ensures
        next_times(size, selected, k) == (selected + k) as int % (size as int),
    decreases k,
{
    if k == 0 {
        vstd::arithmetic::div_mod::lemma_small_mod(selected, size);
    } else {
        let x = selected + k - 1;
        lemma_next_times_value(size, selected, (k - 1) as nat);
        vstd::arithmetic::div_mod::lemma_add_mod_noop_right(1, x, size as int);
    }
}

proof fn lemma_prev_times_value(size: nat, selected: nat, k: nat)
    requires
        0 < size,
        selected < size,
    ensures
        prev_times(size, selected, k) == (selected - k) as int % (size as int),
    decreases k,
{
    if k == 0 {
        vstd::arithmetic::div_mod::lemma_small_mod(selected, size);
    } else {
        let x = selected - (k - 1);
        lemma_prev_times_value(size, selected, (k - 1) as nat);
        vstd::arithmetic::div_mod::lemma_mod_bound(x, size as int);
        vstd::arithmetic::div_mod::lemma_add_mod_noop_right(-1, x, size as int);
        let p = x % (size as int);
        if p == 0 {
            vstd::arithmetic::div_mod::lemma_mod_add_multiples_vanish(-1, size as int);
            vstd::arithmetic::div_mod::lemma_small_mod((size - 1) as nat, size);
        } else {
            vstd::arithmetic::div_mod::lemma_small_mod((p - 1) as nat, size);
        }
    }
}

/// Stepping forward `size` times, or back `size` times, comes back to the
/// row where it started.
pub proof fn lemma_full_cycle(size: nat, selected: nat)
    requires
        0 < size,
        selected < size,
    ensures
        next_times(size, selected, size) == selected,
        prev_times(size, selected, size) == selected,
{
    lemma_next_times_value(size, selected, size);
    lemma_prev_times_value(size, selected, size);
    vstd::arithmetic::div_mod::lemma_mod_add_multiples_vanish(selected as int, size as int);
    vstd::arithmetic::div_mod::lemma_mod_sub_multiples_vanish(selected as int, size as int);
    vstd::arithmetic::div_mod::lemma_small_mod(selected, size);
}

/// A step forward followed by a step back, or a step back followed by a step
/// forward, leaves the selection where it was.
pub proof fn lemma_step_undo(size: nat, selected: nat)
    requires
        0 < size,
        selected < size,
    ensures
        prev_index(size, next_index(size, selected)) == selected,
        next_index(size, prev_index(size, selected)) == selected,
{
    if selected + 1 == size {
        vstd::arithmetic::div_mod::lemma_mod_self_0(size as int);
    } else {
        vstd::arithmetic::div_mod::lemma_small_mod(selected + 1, size);
    }
    if selected == 0 {
        vstd::arithmetic::div_mod::lemma_mod_self_0(size as int);
    } else {
        vstd::arithmetic::div_mod::lemma_small_mod(selected as nat, size);
    }
}

/// The index after taking `steps` in order, forward where a step is true and
/// back where it is false.
pub open spec fn steps_from(size: nat, selected: nat, steps: Seq<bool>) -> nat
    decreases steps.len(),
{
    if steps.len() == 0 {
        selected
    } else {
        let s = if steps[0] { next_index(size, selected) } else { prev_index(size, selected) };
        steps_from(size, s, steps.drop_first())
    }
}

/// Any number of steps in either direction keeps the selection inside the
/// list: `steps[i]` is true for a step forward and false for a step back.
pub proof fn lemma_steps_stay_in_range(size: nat, selected: nat, steps: Seq<bool>)
    requires
        0 < size,
        selected < size,
    ensures
        steps_from(size, selected, steps) < size,
    decreases steps.len(),
{
    if steps.len() > 0 {
        let s = if steps[0] { next_index(size, selected) } else { prev_index(size, selected) };
        vstd::arithmetic::div_mod::lemma_mod_bound(selected + 1 as int, size as int);
        lemma_steps_stay_in_range(size, s, steps.drop_first());
    }
}

} // verus!
