//! The input-to-setting mapping of one brush setting: a base value plus, for
//! each input, an optional piecewise-linear curve given by up to
//! [`MAX_POINTS`] control points.
//!
//! This module keeps the curve table and its bookkeeping; the coordinates
//! are held as values of any copyable type `V` and never interpreted here.
use vstd::prelude::*;

verus! {

/// Maximum number of control points per input curve.
pub const MAX_POINTS: usize = 64;

/// Number of entries of `counts` that are non-zero.
pub open spec fn count_active(counts: Seq<nat>) -> nat
    decreases counts.len(),
{
    if counts.len() == 0 {
        0
    } else {
        count_active(counts.drop_last()) + if counts.last() != 0 {
            1nat
        } else {
            0nat
        }
    }
}

/// Changing one entry changes the number of non-zero entries by the change of
/// that entry's own status.
pub proof fn lemma_count_active_update(counts: Seq<nat>, i: int, v: nat)
    requires
        0 <= i < counts.len(),
    ensures
        count_active(counts.update(i, v)) + (if counts[i] != 0 {
            1int
        } else {
            0int
        }) == count_active(counts) + (if v != 0 {
            1int
        } else {
            0int
        }),
    decreases counts.len(),
{
    let u = counts.update(i, v);
    if i == counts.len() - 1 {
        assert(u.drop_last() =~= counts.drop_last());
    } else {
        assert(u.drop_last() =~= counts.drop_last().update(i, v));
        lemma_count_active_update(counts.drop_last(), i, v);
    }
}

/// No entry is non-zero exactly when the count of non-zero entries is zero;
/// the count never exceeds the length.
pub proof fn lemma_count_active_zero(counts: Seq<nat>)
    ensures
        (count_active(counts) == 0) == (forall|i: int| 0 <= i < counts.len() ==> counts[i] == 0),
        count_active(counts) <= counts.len(),
    decreases counts.len(),
{
    if counts.len() > 0 {
        let rest = counts.drop_last();
        lemma_count_active_zero(rest);
        if count_active(counts) == 0 {
            assert forall|i: int| 0 <= i < counts.len() implies counts[i] == 0 by {
                if i < counts.len() - 1 {
                    assert(rest[i] == counts[i]);
                }
            }
        }
    }
}

/// Every entry of `counts` is zero.
pub open spec fn all_zero(counts: Seq<nat>) -> bool {
    forall|i: int| 0 <= i < counts.len() ==> counts[i] == 0
}

/// A mapping for one brush setting: `base_value`, plus a curve of control
/// points for each input channel that has one.
pub struct Mapping<V> {
    base_value: V,
    inputs: usize,
    n: Vec<usize>,
    xs: Vec<V>,
    ys: Vec<V>,
    inputs_used: usize,
}

impl<V: Copy> Mapping<V> {
    /// The table is consistent: one point count per input, room for
    /// `MAX_POINTS` points per input (addressable by `usize`), no count of one or above the maximum,
    /// and the number of active inputs kept up to date.
    pub closed spec fn wf(&self) -> bool {
        &&& self.n@.len() == self.inputs
        &&& self.inputs * MAX_POINTS <= usize::MAX
        &&& self.xs@.len() == self.inputs * MAX_POINTS
        &&& self.ys@.len() == self.inputs * MAX_POINTS
        &&& forall|i: int| 0 <= i < self.inputs ==> #[trigger] self.n@[i] <= MAX_POINTS && self.n@[i] != 1
        &&& self.inputs_used == count_active(self.counts())
    }

    /// Number of input channels.
    pub closed spec fn num_inputs(&self) -> nat {
        self.inputs as nat
    }

    /// Number of control points of each input's curve; zero means the input
    /// has no curve.
    pub closed spec fn counts(&self) -> Seq<nat> {
        self.n@.map_values(|c: usize| c as nat)
    }

    /// The value that the mapping starts from before the curves are added.
    pub closed spec fn base(&self) -> V {
        self.base_value
    }

    /// Control point `k` of input `i`'s curve, as (x, y).
    pub closed spec fn point(&self, i: int, k: int) -> (V, V) {
        (self.xs@[i * MAX_POINTS + k], self.ys@[i * MAX_POINTS + k])
    }

    /// A well-formed mapping holds one point count per input, each at most
    /// `MAX_POINTS` and never one.
    pub proof fn lemma_wf_counts(&self)
        requires
            self.wf(),
        ensures
            self.counts().len() == self.num_inputs(),
            forall|i: int|
                0 <= i < self.num_inputs() ==> #[trigger] self.counts()[i] <= MAX_POINTS
                    && self.counts()[i] != 1,
    {
    }

    /// Creates a mapping over `n_inputs` inputs with no curves; the base value
    /// and every coordinate start as `V`'s default value.
    pub fn new(n_inputs: usize) -> (m: Self) where V: Default
        requires
            n_inputs * MAX_POINTS <= usize::MAX,
        ensures
            m.wf(),
            m.num_inputs() == n_inputs,
            call_ensures(V::default, (), m.base()),
            m.counts() == Seq::new(n_inputs as nat, |i: int| 0nat),
            forall|i: int, k: int|
                0 <= i < n_inputs && 0 <= k < MAX_POINTS ==> #[trigger] m.point(i, k) == (m.base(), m.base()),
    {
        let zero = V::default();
        let mut n: Vec<usize> = Vec::new();
        let mut i: usize = 0;
        while i < n_inputs
            invariant
                i <= n_inputs,
                n@ == Seq::new(i as nat, |k: int| 0usize),
            decreases n_inputs - i,
        {
            n.push(0);
            i = i + 1;
            assert(n@ =~= Seq::new(i as nat, |k: int| 0usize));
        }
        let total = n_inputs * MAX_POINTS;
        let mut xs: Vec<V> = Vec::new();
        let mut ys: Vec<V> = Vec::new();
        let mut k: usize = 0;
        while k < total
            invariant
                k <= total,
                xs@.len() == k,
                ys@.len() == k,
                forall|j: int| 0 <= j < k ==> xs@[j] == zero && ys@[j] == zero,
            decreases total - k,
        {
            xs.push(zero);
            ys.push(zero);
            k = k + 1;
        }
        let m = Mapping { base_value: zero, inputs: n_inputs, n, xs, ys, inputs_used: 0 };
        proof {
            assert(m.counts() =~= Seq::new(n_inputs as nat, |i: int| 0nat));
            lemma_count_active_zero(m.counts());
            assert forall|i: int, k: int|
                0 <= i < n_inputs && 0 <= k < MAX_POINTS implies #[trigger] m.point(i, k) == (m.base(), m.base()) by {
                assert(0 <= i * MAX_POINTS + k < n_inputs * MAX_POINTS) by (nonlinear_arith)
                    requires
                        0 <= i < n_inputs,
                        0 <= k < MAX_POINTS,
                ;
            }
        }
        m
    }

    /// Removes every curve and sets the base value to `V`'s default; the
    /// stored coordinates are kept.
    pub fn reset(&mut self) where V: Default
        requires
            old(self).wf(),
        ensures
            final(self).wf(),
            final(self).num_inputs() == old(self).num_inputs(),
            call_ensures(V::default, (), final(self).base()),
            final(self).counts() == Seq::new(old(self).num_inputs(), |i: int| 0nat),
            forall|i: int, k: int| #[trigger] final(self).point(i, k) == old(self).point(i, k),
    {
        self.base_value = V::default();
        let mut i: usize = 0;
        while i < self.inputs
            invariant
                i <= self.inputs,
                self.inputs == old(self).inputs,
                self.xs == old(self).xs,
                self.ys == old(self).ys,
                call_ensures(V::default, (), self.base_value),
                self.n@.len() == self.inputs,
                forall|k: int| 0 <= k < i ==> self.n@[k] == 0,
            decreases self.inputs - i,
        {
            self.n.set(i, 0);
            i = i + 1;
        }
        self.inputs_used = 0;
        proof {
            assert(self.counts() =~= Seq::new(old(self).num_inputs(), |i: int| 0nat));
            lemma_count_active_zero(self.counts());
        }
    }

    /// Returns the base value.
    pub fn get_base_value(&self) -> (v: V)
        ensures
            v == self.base(),
    {
        self.base_value
    }

    /// Sets the base value; the curves are unchanged.
    pub fn set_base_value(&mut self, value: V)
        ensures
            final(self).base() == value,
            final(self).wf() == old(self).wf(),
            final(self).num_inputs() == old(self).num_inputs(),
            final(self).counts() == old(self).counts(),
            forall|i: int, k: int| #[trigger] final(self).point(i, k) == old(self).point(i, k),
    {
        self.base_value = value;
    }

    /// Returns the number of input channels.
    pub fn inputs(&self) -> (n: usize)
        ensures
            n == self.num_inputs(),
    {
        self.inputs
    }

    /// Sets the number of control points of `input`'s curve: zero removes the
    /// curve, and a curve needs at least two points.
    pub fn set_n(&mut self, input: usize, n: usize)
        requires
            old(self).wf(),
            input < old(self).num_inputs(),
            n <= MAX_POINTS,
            n != 1,
        ensures
            final(self).wf(),
            final(self).num_inputs() == old(self).num_inputs(),
            final(self).counts() == old(self).counts().update(input as int, n as nat),
            final(self).base() == old(self).base(),
            forall|i: int, k: int| #[trigger] final(self).point(i, k) == old(self).point(i, k),
    {
        let ghost before = self.counts();
        proof {
            lemma_count_active_update(before, input as int, n as nat);
            lemma_count_active_zero(before);
            lemma_count_active_zero(before.update(input as int, n as nat));
        }
        let was_active = self.n[input] != 0;
        let will_be_active = n != 0;
        if !was_active && will_be_active {
            self.inputs_used = self.inputs_used + 1;
        } else if was_active && !will_be_active {
            self.inputs_used = self.inputs_used - 1;
        }
        self.n.set(input, n);
        proof {
            assert(self.counts() =~= before.update(input as int, n as nat));
        }
    }

    /// Returns the number of control points of `input`'s curve.
    pub fn get_n(&self, input: usize) -> (n: usize)
        requires
            self.wf(),
            input < self.num_inputs(),
        ensures
            n == self.counts()[input as int],
    {
        self.n[input]
    }

    /// Sets control point `index` of `input`'s curve to (`x`, `y`).
    pub fn set_point(&mut self, input: usize, index: usize, x: V, y: V)
        requires
            old(self).wf(),
            input < old(self).num_inputs(),
            index < old(self).counts()[input as int],
        ensures
            final(self).wf(),
            final(self).num_inputs() == old(self).num_inputs(),
            final(self).counts() == old(self).counts(),
            final(self).base() == old(self).base(),
            final(self).point(input as int, index as int) == (x, y),
            forall|i: int, k: int|
                0 <= i < old(self).num_inputs() && 0 <= k < MAX_POINTS && (i, k) != (
                    input as int,
                    index as int,
                ) ==> #[trigger] final(self).point(i, k) == old(self).point(i, k),
    {
        assert(self.n@[input as int] <= MAX_POINTS);
        assert(0 <= input * MAX_POINTS + index < self.inputs * MAX_POINTS) by (nonlinear_arith)
            requires
                input < self.inputs,
                index < MAX_POINTS,
        ;
        let at = input * MAX_POINTS + index;
        self.xs.set(at, x);
        self.ys.set(at, y);
        proof {
            assert forall|i: int, k: int|
                0 <= i < old(self).num_inputs() && 0 <= k < MAX_POINTS && (i, k) != (
                    input as int,
                    index as int,
                ) implies #[trigger] self.point(i, k) == old(self).point(i, k) by {
                assert(i * MAX_POINTS + k != input * MAX_POINTS + index) by (nonlinear_arith)
                    requires
                        0 <= k < MAX_POINTS,
                        0 <= index < MAX_POINTS,
                        (i, k) != (input as int, index as int),
                ;
            }
        }
    }

    /// Returns control point `index` of `input`'s curve as (x, y).
    pub fn get_point(&self, input: usize, index: usize) -> (p: (V, V))
        requires
            self.wf(),
            input < self.num_inputs(),
            index < self.counts()[input as int],
        ensures
            p == self.point(input as int, index as int),
    {
        assert(self.n@[input as int] <= MAX_POINTS);
        assert(0 <= input * MAX_POINTS + index < self.inputs * MAX_POINTS) by (nonlinear_arith)
            requires
                input < self.inputs,
                index < MAX_POINTS,
        ;
        (self.xs[input * MAX_POINTS + index], self.ys[input * MAX_POINTS + index])
    }

    /// No input has a curve, so the mapping always gives its base value.
    pub fn is_constant(&self) -> (constant: bool)
        requires
            self.wf(),
        ensures
            constant == all_zero(self.counts()),
    {
        proof {
            lemma_count_active_zero(self.counts());
        }
        self.inputs_used == 0
    }

    /// Number of inputs that have a curve.
    pub fn inputs_used_n(&self) -> (used: usize)
        requires
            self.wf(),
        ensures
            used == count_active(self.counts()),
    {
        self.inputs_used
    }
}

} // verus!
