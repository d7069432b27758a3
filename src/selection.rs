//! Which two of the three inputs are enabled: a first-in first-out queue of
//! at most two tags. Enabling a third input evicts the one enabled longest ago.
use vstd::prelude::*;

use crate::variable::GraphVariable;

verus! {

/// The enabled inputs, oldest first.
#[derive(Debug)]
pub struct Selection {
    order: Vec<GraphVariable>,
}

impl View for Selection {
    type V = Seq<GraphVariable>;

    closed spec fn view(&self) -> Seq<GraphVariable> {
        self.order@
    }
}

/// The predicate "is not `v`".
pub open spec fn is_not(v: GraphVariable) -> spec_fn(GraphVariable) -> bool {
    |x: GraphVariable| x != v
}

/// At most two distinct tags.
pub open spec fn valid_order(s: Seq<GraphVariable>) -> bool {
    &&& s.len() <= 2
    &&& s.len() == 2 ==> s[0] != s[1]
}

/// The order after the user toggles `v`: a disabled tag is appended, evicting
/// the oldest when that makes three; an enabled tag is removed.
pub open spec fn toggled(s: Seq<GraphVariable>, v: GraphVariable) -> Seq<GraphVariable> {
    if s.contains(v) {
        s.filter(is_not(v))
    } else if s.len() < 2 {
        s.push(v)
    } else {
        s.push(v).drop_first()
    }
}

/// The input that is neither enabled one, when exactly two are enabled.
pub open spec fn free_of(s: Seq<GraphVariable>) -> Option<GraphVariable> {
    if s.len() != 2 {
        None
    } else if !s.contains(GraphVariable::RifleWeight) {
        Some(GraphVariable::RifleWeight)
    } else if !s.contains(GraphVariable::Velocity) {
        Some(GraphVariable::Velocity)
    } else {
        Some(GraphVariable::ProjectileWeight)
    }
}

/// Filtering a valid order by "is not `v`".
proof fn lemma_filter_small(s: Seq<GraphVariable>, v: GraphVariable)
    requires
        valid_order(s),
    ensures
        valid_order(s.filter(is_not(v))),
        !s.filter(is_not(v)).contains(v),
        forall|x: GraphVariable| x != v ==> (s.contains(x) <==> s.filter(is_not(v)).contains(x)),
{
    broadcast use vstd::seq_lib::group_filter_ensures;

    reveal_with_fuel(Seq::filter, 3);
    assert(s.len() == 0 || s.len() == 1 || s.len() == 2);
    if s.len() == 2 {
        assert(s.drop_last().drop_last() =~= Seq::<GraphVariable>::empty());
        assert(s.drop_last() =~= seq![s[0]]);
    } else if s.len() == 1 {
        assert(s.drop_last() =~= Seq::<GraphVariable>::empty());
    }
    assert(s.filter(is_not(v)).len() <= s.len()) by {
        s.lemma_filter_len(is_not(v));
    }
    assert forall|x: GraphVariable| x != v implies (s.contains(x) <==> s.filter(is_not(v)).contains(x)) by {
        if s.contains(x) {
            let i = choose|i: int| 0 <= i < s.len() && s[i] == x;
            s.lemma_filter_contains(is_not(v), i);
        }
        if s.filter(is_not(v)).contains(x) {
            let j = choose|j: int| 0 <= j < s.filter(is_not(v)).len() && s.filter(is_not(v))[j] == x;
        }
    }
    if s.filter(is_not(v)).contains(v) {
        let j = choose|j: int| 0 <= j < s.filter(is_not(v)).len() && s.filter(is_not(v))[j] == v;
    }
}

impl Selection {
    pub open spec fn wf(&self) -> bool {
        valid_order(self@)
    }

    /// Start-up selection: projectile weight, then velocity.
    pub fn new() -> (r: Selection)
        ensures
            r.wf(),
            r@ == seq![GraphVariable::ProjectileWeight, GraphVariable::Velocity],
    {
        let order = vec![GraphVariable::ProjectileWeight, GraphVariable::Velocity];
        Selection { order }
    }

    /// The enabled tags, oldest first.
    pub fn order(&self) -> (r: &Vec<GraphVariable>)
        ensures
            r@ == self@,
    {
        &self.order
    }

    /// Whether `v` is enabled.
    pub fn is_enabled(&self, v: GraphVariable) -> (r: bool)
        ensures
            r == self@.contains(v),
    {
        let mut i: usize = 0;
        while i < self.order.len()
            invariant
                0 <= i <= self.order@.len(),
                forall|j: int| 0 <= j < i ==> self.order@[j] != v,
            decreases self.order@.len() - i,
        {
            if self.order[i] == v {
                return true;
            }
            i += 1;
        }
        false
    }

    /// Toggles `v`: enables it when disabled, evicting the oldest of two
    /// enabled tags; disables it when enabled.
    pub fn toggle(&mut self, v: GraphVariable)
        requires
            old(self).wf(),
        ensures
            final(self).wf(),
            final(self)@ == toggled(old(self)@, v),
    {
        let was_enabled = self.is_enabled(v);
        if was_enabled {
            let mut kept: Vec<GraphVariable> = Vec::new();
            let mut i: usize = 0;
            while i < self.order.len()
                invariant
                    0 <= i <= self.order@.len(),
                    kept@ == self.order@.subrange(0, i as int).filter(is_not(v)),
                decreases self.order@.len() - i,
            {
                let x = self.order[i];
                proof {
                    assert(self.order@.subrange(0, i + 1) =~= self.order@.subrange(0, i as int).push(x));
                    self.order@.subrange(0, i as int).lemma_filter_push(x, is_not(v));
                }
                if x != v {
                    kept.push(x);
                }
                i += 1;
            }
            proof {
                assert(self.order@.subrange(0, self.order@.len() as int) =~= self.order@);
                lemma_filter_small(self.order@, v);
            }
            self.order = kept;
        } else {
            self.order.push(v);
            if self.order.len() > 2 {
                self.order.remove(0);
                proof {
                    assert(self.order@ =~= old(self)@.push(v).drop_first());
                }
            }
        }
    }

    /// The input that is neither enabled one; `None` unless exactly two are enabled.
    pub fn free_variable(&self) -> (r: Option<GraphVariable>)
        requires
            self.wf(),
        ensures
            r == free_of(self@),
            r matches Some(f) ==> !self@.contains(f),
    {
        if self.order.len() != 2 {
            None
        } else if !self.is_enabled(GraphVariable::RifleWeight) {
            Some(GraphVariable::RifleWeight)
        } else if !self.is_enabled(GraphVariable::Velocity) {
            Some(GraphVariable::Velocity)
        } else {
            proof {
                let s = self@;
                assert(s[0] != s[1]);
                assert(s.contains(GraphVariable::ProjectileWeight) ==> false) by {
                    if s.contains(GraphVariable::ProjectileWeight) {
                        let i = choose|i: int| 0 <= i < 2 && s[i] == GraphVariable::ProjectileWeight;
                        let a = choose|a: int| 0 <= a < 2 && s[a] == GraphVariable::RifleWeight;
                        let b = choose|b: int| 0 <= b < 2 && s[b] == GraphVariable::Velocity;
                    }
                }
            }
            Some(GraphVariable::ProjectileWeight)
        }
    }
}

} // verus!
