use vstd::prelude::*;
use crate::chip::{config_after, diff_gate, system_after, EqualChip, EqualConfig};
use crate::field::{field_sub, is_element, is_value, sub_mod, sub_value, valid_modulus};
use crate::layout::{AssignedCell, Column, ColumnKind, ConstraintSystem, Error, Layouter, SystemView, gate_ok, is_fresh, lookup, satisfied};

verus! {

/// The circuit that exposes `y` and `x - y` for two witnessed values; a
/// value is `None` while the witness is unknown (key generation).
#[derive(Debug, Clone, Copy, PartialEq, Eq, Structural)]
pub struct EqualCircuit {
    pub x: Option<u64>,
    pub y: Option<u64>,
}

/// The first two advice columns and the first instance column of a system.
pub open spec fn circuit_columns(s: SystemView) -> ([Column; 2], Column) {
    (
        [
            Column { index: s.num_advice as usize, kind: ColumnKind::Advice },
            Column { index: (s.num_advice + 1) as usize, kind: ColumnKind::Advice },
        ],
        Column { index: s.num_instance as usize, kind: ColumnKind::Instance },
    )
}

/// The configuration that `EqualCircuit::configure` returns on `s`.
pub open spec fn circuit_config(s: SystemView) -> EqualConfig {
    let with_cols = SystemView { num_advice: s.num_advice + 2, num_instance: s.num_instance + 1, ..s };
    config_after(with_cols, circuit_columns(s).0, circuit_columns(s).1)
}

/// The system that `EqualCircuit::configure` leaves behind.
pub open spec fn circuit_system(s: SystemView) -> SystemView {
    let with_cols = SystemView { num_advice: s.num_advice + 2, num_instance: s.num_instance + 1, ..s };
    system_after(with_cols, circuit_columns(s).0, circuit_columns(s).1)
}

/// Whether synthesis of the circuit over `config` can complete from layout `l`:
/// two regions of at least two rows fit, the three columns have equality
/// enabled, and the instance column has two rows.
pub open spec fn synthesis_fits(config: EqualConfig, l: Layouter) -> bool {
    &&& l.next_row + 2 * l.region_height <= l.num_rows
    &&& l.region_height >= 2
    &&& l.equality_spec(config.advice[0])
    &&& l.equality_spec(config.advice[1])
    &&& l.equality_spec(config.instance)
}

/// What one run of `synthesize` of circuit `c` does to layout `l`, giving
/// layout `f` and result `r`.
pub open spec fn synthesis(c: EqualCircuit, config: EqualConfig, l: Layouter, f: Layouter, r: Result<(), Error>) -> bool {
    let s = l.next_row;
    let h = l.region_height;
    let a0 = config.advice[0];
    let a1 = config.advice[1];
    let inst = config.instance;
    let xc = AssignedCell { column: a0, row: s, value: c.x };
    let yc = AssignedCell { column: a1, row: s, value: c.y };
    let lhs = AssignedCell { column: a0, row: (s + h) as usize, value: c.x };
    let rhs = AssignedCell { column: a1, row: (s + h) as usize, value: c.y };
    let out = AssignedCell { column: a0, row: (s + h + 1) as usize, value: sub_value(l.modulus, c.x, c.y) };
    &&& f.wf()
    &&& f.extends(&l)
    &&& r is Ok <==> synthesis_fits(config, l)
    &&& l.next_row + 2 * h <= l.num_rows && h == 1 && l.equality_spec(a0) && l.equality_spec(a1)
        ==> r == Err::<(), Error>(Error::RegionBound)
    &&& synthesis_fits(config, l) ==> {
        &&& f.cells@ == l.cells@ + seq![xc, yc, lhs, rhs, out]
        &&& f.copies@ == l.copies@ + seq![(xc, lhs), (yc, rhs)]
        &&& f.enabled@ == l.enabled@.push((config.selector, (s + h) as usize))
        &&& f.instance@ == l.instance@ + seq![(yc, inst, 0usize), (out, inst, 1usize)]
    }
}

/// The public inputs that the circuit exposes for the raw inputs `x` and `y`:
/// `y` and `x - y`, both taken modulo `p`.
pub open spec fn expected_public(p: u64, x: u64, y: u64) -> Seq<u64> {
    seq![(y % p) as u64, sub_mod(p as int, (x % p) as int, (y % p) as int) as u64]
}

impl EqualCircuit {
    /// The same circuit with its witness unknown, for key generation.
    pub fn without_witnesses(&self) -> (r: EqualCircuit)
        ensures
            r.x is None,
            r.y is None,
    {
        EqualCircuit { x: None, y: None }
    }

    /// The circuit for key generation, with no witness.
    pub fn keygen_circuit() -> (r: EqualCircuit)
        ensures
            r.x is None,
            r.y is None,
    {
        EqualCircuit { x: None, y: None }
    }

    /// Allocates two advice columns and one instance column, then configures
    /// the chip over them.
    pub fn configure(meta: &mut ConstraintSystem) -> (r: EqualConfig)
        requires
            old(meta).num_advice < usize::MAX - 1,
            old(meta).num_instance < usize::MAX,
            old(meta).num_selectors < usize::MAX,
        ensures
            r == circuit_config(old(meta)@),
            final(meta)@ == circuit_system(old(meta)@),
    {
        let col_0 = meta.advice_column();
        let col_1 = meta.advice_column();
        let instance = meta.instance_column();
        EqualChip::configure(meta, [col_0, col_1], instance)
    }

    /// Assigns the operands, constrains their difference and exposes `y` and
    /// the difference, stopping at the first error.
    pub fn synthesize(&self, config: EqualConfig, layouter: &mut Layouter) -> (r: Result<(), Error>)
        requires
            old(layouter).wf(),
            is_value(old(layouter).modulus, self.x),
            is_value(old(layouter).modulus, self.y),
        ensures
            synthesis(*self, config, *old(layouter), *final(layouter), r),
    {
        let ghost l = *old(layouter);
        let chip = EqualChip::construct(config);
        let (x_cell, y_cell) = chip.assign_operands(layouter, self.x, self.y)?;
        let ghost l1 = *layouter;
        let equal_cell = chip.diff(layouter, x_cell, y_cell)?;
        let ghost l2 = *layouter;
        chip.expose_public(layouter, &y_cell, &equal_cell)?;
        proof {
            assert(layouter.cells@ =~= l.cells@ + seq![x_cell, y_cell, l2.cells@[l.cells@.len() as int + 2],
                l2.cells@[l.cells@.len() as int + 3], equal_cell]);
            assert(layouter.copies@ =~= l.copies@ + seq![l2.copies@[l.copies@.len() as int],
                l2.copies@[l.copies@.len() as int + 1]]);
            assert(layouter.instance@ =~= l.instance@ + seq![(y_cell, config.instance, 0usize),
                (equal_cell, config.instance, 1usize)]);
        }
        Ok(())
    }

    /// The circuit for raw inputs `x` and `y`, each reduced into the field,
    /// and the public inputs it exposes.
    pub fn from_inputs(p: u64, x: u64, y: u64) -> (r: (EqualCircuit, Vec<Vec<u64>>))
        requires
            valid_modulus(p),
        ensures
            r.0.x == Some((x % p) as u64),
            r.0.y == Some((y % p) as u64),
            r.1@.len() == 1,
            r.1@[0]@ == expected_public(p, x, y),
    {
        let xe = x % p;
        let ye = y % p;
        let d = field_sub(p, xe, ye);
        let column = vec![ye, d];
        proof {
            assert(column@ == expected_public(p, x, y));
        }
        (EqualCircuit { x: Some(xe), y: Some(ye) }, vec![column])
    }
}

/// Two cells stand at the same position, whatever values they hold.
pub open spec fn same_place(a: AssignedCell, b: AssignedCell) -> bool {
    a.column == b.column && a.row == b.row
}

/// Two layouts place the same cells, copy constraints, selectors and public
/// bindings at the same positions; only the values may differ.
pub open spec fn same_layout(a: Layouter, b: Layouter) -> bool {
    &&& a.cells@.len() == b.cells@.len()
    &&& forall|i: int| 0 <= i < a.cells@.len() ==> same_place(#[trigger] a.cells@[i], b.cells@[i])
    &&& a.copies@.len() == b.copies@.len()
    &&& forall|i: int| 0 <= i < a.copies@.len() ==> same_place((#[trigger] a.copies@[i]).0, b.copies@[i].0)
        && same_place(a.copies@[i].1, b.copies@[i].1)
    &&& a.enabled@ == b.enabled@
    &&& a.instance@.len() == b.instance@.len()
    &&& forall|i: int| 0 <= i < a.instance@.len() ==> same_place((#[trigger] a.instance@[i]).0, b.instance@[i].0)
        && a.instance@[i].1 == b.instance@[i].1 && a.instance@[i].2 == b.instance@[i].2
}

/// Configuring the circuit on two fresh constraint systems over one field
/// gives the same columns, selector, gate and equality set.
pub proof fn lemma_configure_deterministic(a: SystemView, b: SystemView)
    requires
        is_fresh(a),
        is_fresh(b),
        a.modulus == b.modulus,
    ensures
        circuit_config(a) == circuit_config(b),
        circuit_system(a) == circuit_system(b),
{
    assert(a.equality =~= b.equality);
    assert(a.gates =~= b.gates);
    assert(circuit_system(a).equality =~= circuit_system(b).equality);
    assert(circuit_system(a).gates =~= circuit_system(b).gates);
}

/// Synthesis lays out any two circuits identically from the same starting
/// layout, so the circuit without witnesses has the layout of every witnessed
/// one, and fails exactly when they fail.
pub proof fn lemma_layout_independent_of_witness(
    c1: EqualCircuit,
    c2: EqualCircuit,
    config: EqualConfig,
    l: Layouter,
    f1: Layouter,
    r1: Result<(), Error>,
    f2: Layouter,
    r2: Result<(), Error>,
)
    requires
        synthesis(c1, config, l, f1, r1),
        synthesis(c2, config, l, f2, r2),
        r1 is Ok || r2 is Ok,
    ensures
        r1 is Ok,
        r2 is Ok,
        same_layout(f1, f2),
{
    let n = l.cells@.len() as int;
    assert forall|i: int| 0 <= i < f1.cells@.len() implies same_place(#[trigger] f1.cells@[i], f2.cells@[i]) by {
        if i < n {
            assert(f1.cells@[i] == l.cells@[i]);
            assert(f2.cells@[i] == l.cells@[i]);
        }
    }
    let m = l.copies@.len() as int;
    assert forall|i: int| 0 <= i < f1.copies@.len() implies same_place((#[trigger] f1.copies@[i]).0, f2.copies@[i].0)
        && same_place(f1.copies@[i].1, f2.copies@[i].1) by {
        if i < m {
            assert(f1.copies@[i] == l.copies@[i]);
            assert(f2.copies@[i] == l.copies@[i]);
        }
    }
    let k = l.instance@.len() as int;
    assert forall|i: int| 0 <= i < f1.instance@.len() implies same_place((#[trigger] f1.instance@[i]).0, f2.instance@[i].0)
        && f1.instance@[i].1 == f2.instance@[i].1 && f1.instance@[i].2 == f2.instance@[i].2 by {
        if i < k {
            assert(f1.instance@[i] == l.instance@[i]);
            assert(f2.instance@[i] == l.instance@[i]);
        }
    }
}

/// The exposed difference of two field elements is zero exactly when they
/// are equal: equality is read off the difference, never decided by a constraint.
pub proof fn lemma_difference_zero_iff_equal(p: u64, x: u64, y: u64)
    requires
        valid_modulus(p),
        is_element(p, x),
        is_element(p, y),
    ensures
        sub_mod(p as int, x as int, y as int) == 0 <==> x == y,
{
    if x >= y {
        vstd::arithmetic::div_mod::lemma_small_mod((x - y) as nat, p as nat);
    } else {
        vstd::arithmetic::div_mod::lemma_small_mod((p - (y - x)) as nat, p as nat);
        vstd::arithmetic::div_mod::lemma_mod_add_multiples_vanish(x - y, p as int);
    }
}

/// For every witness, a successful synthesis from an empty layout satisfies
/// the diff constraint of its configuration and all of its copy constraints:
/// the output cell holds exactly `x - y`, whether or not `x == y`.
pub proof fn lemma_synthesis_satisfies(c: EqualCircuit, config: EqualConfig, l: Layouter, f: Layouter, r: Result<(), Error>)
    requires
        synthesis(c, config, l, f, r),
        r is Ok,
        l.cells@.len() == 0,
        l.copies@.len() == 0,
        l.enabled@.len() == 0,
        config.advice[0] != config.advice[1],
        is_value(l.modulus, c.x),
        is_value(l.modulus, c.y),
    ensures
        satisfied(f, seq![diff_gate(config)]),
{
    let g = diff_gate(config);
    let row = f.enabled@[0].1;
    let cells = f.cells@;
    assert(cells.drop_last().drop_last() =~= cells.subrange(0, 3));
    assert(cells.subrange(0, 3).drop_last() =~= cells.subrange(0, 2));
    assert(cells.drop_last() =~= cells.subrange(0, 4));
    assert(cells.subrange(0, 4).drop_last() =~= cells.subrange(0, 3));
    assert(lookup(cells, g.out, (row + 1) as usize) == Some(cells[4].value));
    assert(lookup(cells.subrange(0, 3), g.lhs, row) == Some(cells[2].value));
    assert(lookup(cells.subrange(0, 4), g.lhs, row) == Some(cells[2].value));
    assert(lookup(cells, g.lhs, row) == Some(cells[2].value));
    assert(lookup(cells.subrange(0, 4), g.rhs, row) == Some(cells[3].value));
    assert(lookup(cells, g.rhs, row) == Some(cells[3].value));
    assert(gate_ok(f.modulus, cells, g, row));
}

} // verus!
