use vstd::prelude::*;
use crate::field::{is_value, sub_value, value_sub};
use crate::layout::{AssignedCell, Column, ConstraintSystem, DiffGate, Error, Layouter, SystemView};

verus! {

/// The columns and the selector that the chip works on.
#[derive(Debug, Clone, Copy)]
pub struct EqualConfig {
    pub advice: [Column; 2],
    pub instance: Column,
    pub selector: usize,
}

/// The operations of the difference gadget, over one configuration.
#[derive(Debug, Clone, Copy)]
pub struct EqualChip {
    pub config: EqualConfig,
}

/// The diff constraint of a chip over its configuration.
pub open spec fn diff_gate(c: EqualConfig) -> DiffGate {
    DiffGate { selector: c.selector, lhs: c.advice[0], rhs: c.advice[1], out: c.advice[0] }
}

/// The configuration that `EqualChip::configure` returns on a system `s`.
pub open spec fn config_after(s: SystemView, advice: [Column; 2], instance: Column) -> EqualConfig {
    EqualConfig { advice, instance, selector: s.num_selectors as usize }
}

/// The system that `EqualChip::configure` leaves behind.
pub open spec fn system_after(s: SystemView, advice: [Column; 2], instance: Column) -> SystemView {
    SystemView {
        num_selectors: s.num_selectors + 1,
        equality: s.equality.push(instance).push(advice[0]).push(advice[1]),
        gates: s.gates.push(diff_gate(config_after(s, advice, instance))),
        ..s
    }
}

/// The identity of the diff constraint on one row: the output cell holds `lhs - rhs`.
pub open spec fn gate_holds(p: u64, lhs: Option<u64>, rhs: Option<u64>, out: Option<u64>) -> bool {
    out == sub_value(p, lhs, rhs)
}

impl EqualChip {
    /// A chip over the given configuration.
    pub fn construct(config: EqualConfig) -> (r: EqualChip)
        ensures
            r.config == config,
    {
        EqualChip { config }
    }

    /// Registers the selector, the copy constraints on all three columns and
    /// the `diff` gate.
    pub fn configure(meta: &mut ConstraintSystem, advice: [Column; 2], instance: Column) -> (r: EqualConfig)
        requires
            old(meta).num_selectors < usize::MAX,
        ensures
            r == config_after(old(meta)@, advice, instance),
            final(meta)@ == system_after(old(meta)@, advice, instance),
    {
        let col_0 = advice[0];
        let col_1 = advice[1];
        let s_eq = meta.selector();
        meta.enable_equality(instance);
        meta.enable_equality(col_0);
        meta.enable_equality(col_1);
        meta.create_gate(DiffGate { selector: s_eq, lhs: col_0, rhs: col_1, out: col_0 });
        EqualConfig { advice, instance, selector: s_eq }
    }

    /// Places `x` and `y` in the first row of a fresh region. No selector is
    /// enabled there.
    pub fn assign_operands(&self, layouter: &mut Layouter, x: Option<u64>, y: Option<u64>)
        -> (r: Result<(AssignedCell, AssignedCell), Error>)
        requires
            old(layouter).wf(),
            is_value(old(layouter).modulus, x),
            is_value(old(layouter).modulus, y),
        ensures
            final(layouter).wf(),
            final(layouter).extends(old(layouter)),
            final(layouter).copies@ == old(layouter).copies@,
            final(layouter).enabled@ == old(layouter).enabled@,
            final(layouter).instance@ == old(layouter).instance@,
            ({
                let s = old(layouter).next_row;
                let h = old(layouter).region_height;
                let xc = AssignedCell { column: self.config.advice[0], row: s, value: x };
                let yc = AssignedCell { column: self.config.advice[1], row: s, value: y };
                &&& s + h > old(layouter).num_rows ==> r == Err::<(AssignedCell, AssignedCell), Error>(Error::NotEnoughRows)
                &&& s + h <= old(layouter).num_rows && h == 0 ==> r == Err::<(AssignedCell, AssignedCell), Error>(Error::RegionBound)
                &&& s + h <= old(layouter).num_rows && h > 0 ==> {
                    &&& r == Ok::<(AssignedCell, AssignedCell), Error>((xc, yc))
                    &&& final(layouter).cells@ == old(layouter).cells@.push(xc).push(yc)
                    &&& final(layouter).next_row == s + h
                }
            }),
    {
        let start = layouter.open_region()?;
        let x_cell = layouter.assign_advice(start, self.config.advice[0], 0, x)?;
        let y_cell = layouter.assign_advice(start, self.config.advice[1], 0, y)?;
        Ok((x_cell, y_cell))
    }
    /// Opens a region, enables the selector on its first row, copies `x` and
    /// `y` there and assigns `x - y` on the second row, which the diff constraint binds.
    pub fn diff(&self, layouter: &mut Layouter, x: AssignedCell, y: AssignedCell) -> (r: Result<AssignedCell, Error>)
        requires
            old(layouter).wf(),
            is_value(old(layouter).modulus, x.value),
            is_value(old(layouter).modulus, y.value),
        ensures
            final(layouter).wf(),
            final(layouter).extends(old(layouter)),
            final(layouter).instance@ == old(layouter).instance@,
            ({
                let l = old(layouter);
                let s = l.next_row;
                let h = l.region_height;
                let a0 = self.config.advice[0];
                let a1 = self.config.advice[1];
                let fits = s + h <= l.num_rows;
                let eq_ok = l.equality_spec(x.column) && l.equality_spec(a0)
                    && l.equality_spec(y.column) && l.equality_spec(a1);
                let lhs = AssignedCell { column: a0, row: s, value: x.value };
                let rhs = AssignedCell { column: a1, row: s, value: y.value };
                let out = AssignedCell {
                    column: a0,
                    row: (s + 1) as usize,
                    value: sub_value(l.modulus, x.value, y.value),
                };
                &&& !fits ==> r == Err::<AssignedCell, Error>(Error::NotEnoughRows)
                &&& fits && h == 0 ==> r == Err::<AssignedCell, Error>(Error::RegionBound)
                &&& fits && h > 0 && !eq_ok ==> r == Err::<AssignedCell, Error>(Error::EqualityNotEnabled)
                &&& fits && h == 1 && eq_ok ==> r == Err::<AssignedCell, Error>(Error::RegionBound)
                &&& fits && h >= 2 && eq_ok ==> {
                    &&& r == Ok::<AssignedCell, Error>(out)
                    &&& final(layouter).enabled@ == l.enabled@.push((self.config.selector, s))
                    &&& final(layouter).cells@ == l.cells@.push(lhs).push(rhs).push(out)
                    &&& final(layouter).copies@ == l.copies@.push((x, lhs)).push((y, rhs))
                    &&& final(layouter).next_row == s + h
                    &&& gate_holds(l.modulus, lhs.value, rhs.value, out.value)
                }
            }),
    {
        let start = layouter.open_region()?;
        layouter.enable_selector(start, self.config.selector, 0)?;
        layouter.copy_advice(x, start, self.config.advice[0], 0)?;
        layouter.copy_advice(y, start, self.config.advice[1], 0)?;
        let value = value_sub(layouter.modulus, x.value, y.value);
        layouter.assign_advice(start, self.config.advice[0], 1, value)
    }

    /// Binds `y_cell` to row 0 and `diff_cell` to row 1 of the instance column.
    pub fn expose_public(&self, layouter: &mut Layouter, y_cell: &AssignedCell, diff_cell: &AssignedCell)
        -> (r: Result<(), Error>)
        requires
            old(layouter).wf(),
        ensures
            final(layouter).wf(),
            final(layouter).extends(old(layouter)),
            final(layouter).next_row == old(layouter).next_row,
            final(layouter).cells@ == old(layouter).cells@,
            final(layouter).copies@ == old(layouter).copies@,
            final(layouter).enabled@ == old(layouter).enabled@,
            ({
                let l = old(layouter);
                let inst = self.config.instance;
                let y_ok = l.equality_spec(y_cell.column) && l.equality_spec(inst);
                let d_ok = l.equality_spec(diff_cell.column) && l.equality_spec(inst);
                &&& l.num_rows == 0 ==> r == Err::<(), Error>(Error::RegionBound)
                &&& l.num_rows > 0 && !y_ok ==> r == Err::<(), Error>(Error::EqualityNotEnabled)
                &&& l.num_rows == 1 && y_ok ==> r == Err::<(), Error>(Error::RegionBound)
                &&& l.num_rows > 1 && y_ok && !d_ok ==> r == Err::<(), Error>(Error::EqualityNotEnabled)
                &&& l.num_rows > 1 && y_ok && d_ok ==> {
                    &&& r == Ok::<(), Error>(())
                    &&& final(layouter).instance@ == l.instance@.push((*y_cell, inst, 0usize)).push(
                        (*diff_cell, inst, 1usize),
                    )
                }
            }),
    {
        layouter.constrain_instance(*y_cell, self.config.instance, 0)?;
        layouter.constrain_instance(*diff_cell, self.config.instance, 1)?;
        Ok(())
    }
}

} // verus!
