//! State of one calculator session: the three inputs and which two of them
//! are enabled.
use vstd::prelude::*;

use crate::formula::{is_one_moa_value, unit_of, value_for_one_moa};
use crate::inputs::BallisticInputs;
use crate::plot::{domain_of, expected_moa, generate_plot_data, is_band, sample_x, x_label_of, y_label_spec, PlotData, NUM_POINTS, SD1_LOWER, SD1_UPPER, SD2_LOWER, SD2_UPPER};
use crate::ratio::{frac_eq, Ratio};
use crate::selection::{free_of, toggled, Selection};
use crate::variable::GraphVariable;

verus! {

/// The calculator: current inputs, and the enabled pair whose complement is
/// the free variable.
#[derive(Debug)]
pub struct TopApp {
    pub inputs: BallisticInputs,
    pub selection: Selection,
}

impl TopApp {
    pub open spec fn wf(&self) -> bool {
        self.inputs.wf() && self.selection.wf()
    }

    /// Start-up state: 168 gr, 2650 fps, 12 lbs; projectile weight and
    /// velocity enabled, in that order.
    pub fn new() -> (r: TopApp)
        ensures
            r.wf(),
            r.inputs.projectile_weight@ == (168int, 1int),
            r.inputs.muzzle_velocity@ == (2650int, 1int),
            r.inputs.rifle_weight@ == (12int, 1int),
            r.selection@ == seq![GraphVariable::ProjectileWeight, GraphVariable::Velocity],
    {
        TopApp { inputs: BallisticInputs::new(), selection: Selection::new() }
    }

    /// The user toggled `var`; see [`Selection::toggle`].
    pub fn handle_selection(&mut self, var: GraphVariable)
        requires
            old(self).wf(),
        ensures
            final(self).wf(),
            final(self).inputs == old(self).inputs,
            final(self).selection@ == toggled(old(self).selection@, var),
    {
        self.selection.toggle(var);
    }

    /// The value of the free variable that yields a one-MOA group, with its
    /// unit; `None` unless exactly two inputs are enabled.
    pub fn calculate_value_for_1moa(&self) -> (r: Option<(Ratio, &'static str)>)
        requires
            self.wf(),
        ensures
            free_of(self.selection@) is None ==> r is None,
            free_of(self.selection@) matches Some(f) ==> r matches Some(p) && p.0.wf()
                && is_one_moa_value(self.inputs, f, p.0@) && p.1@ == unit_of(f),
    {
        match self.selection.free_variable() {
            None => None,
            Some(f) => Some(value_for_one_moa(&self.inputs, f)),
        }
    }

    /// The chart along the free variable; `None` unless exactly two inputs
    /// are enabled.
    pub fn generate_plot_data(&self) -> (r: Option<PlotData>)
        requires
            self.wf(),
        ensures
            free_of(self.selection@) is None ==> r is None,
            free_of(self.selection@) matches Some(f) ==> r matches Some(d)
                && d.expected@.len() == NUM_POINTS
                && (forall|i: int|
                    0 <= i < NUM_POINTS ==> #[trigger] d.expected@[i].0@ == sample_x(f, i)
                        && d.expected@[i].1@ == expected_moa(self.inputs, f, sample_x(f, i)))
                && is_band(d.sd1_upper@, d.expected@, SD1_UPPER as int)
                && is_band(d.sd1_lower@, d.expected@, SD1_LOWER as int)
                && is_band(d.sd2_upper@, d.expected@, SD2_UPPER as int)
                && is_band(d.sd2_lower@, d.expected@, SD2_LOWER as int)
                && frac_eq(d.expected@[0].0@, (domain_of(f).0, 1))
                && frac_eq(d.expected@[NUM_POINTS - 1].0@, (domain_of(f).1, 1))
                && d.x_label@ == x_label_of(f)
                && d.y_label@ == y_label_spec(),
    {
        match self.selection.free_variable() {
            None => None,
            Some(f) => Some(generate_plot_data(&self.inputs, f)),
        }
    }
}

} // verus!
