use vstd::prelude::*;
use crate::field::{is_value, sub_value, valid_modulus, value_sub};

verus! {

/// What a column carries: private witness values or public inputs.
#[derive(Debug, Clone, Copy, PartialEq, Eq, Structural)]
pub enum ColumnKind {
    Advice,
    Instance,
}

/// A column of the table, identified by its kind and its index among the
/// columns of that kind.
#[derive(Debug, Clone, Copy, PartialEq, Eq, Structural)]
pub struct Column {
    pub index: usize,
    pub kind: ColumnKind,
}

/// A gate as data: on every row `r` where `selector` is enabled,
/// `(lhs[r] - rhs[r]) - out[r + 1] == 0`.
#[derive(Debug, Clone, Copy, PartialEq, Eq, Structural)]
pub struct DiffGate {
    pub selector: usize,
    pub lhs: Column,
    pub rhs: Column,
    pub out: Column,
}

/// The failures of configuration and of layout.
#[derive(Debug, Clone, Copy, PartialEq, Eq, Structural)]
pub enum Error {
    /// A region does not fit in the rows that remain.
    NotEnoughRows,
    /// A cell lies outside the rows of its region.
    RegionBound,
    /// A copy constraint names a column whose equality is not enabled.
    EqualityNotEnabled,
    /// The witness does not satisfy the constraints of the circuit.
    ConstraintUnsatisfied,
}

/// The description of the constraint system: the columns, selectors and
/// gates that were registered, and the columns with equality enabled.
#[derive(Debug, Clone)]
pub struct ConstraintSystem {
    pub modulus: u64,
    pub num_advice: usize,
    pub num_instance: usize,
    pub num_selectors: usize,
    pub equality: Vec<Column>,
    pub gates: Vec<DiffGate>,
}

/// The mathematical content of a constraint system.
pub struct SystemView {
    pub modulus: u64,
    pub num_advice: nat,
    pub num_instance: nat,
    pub num_selectors: nat,
    pub equality: Seq<Column>,
    pub gates: Seq<DiffGate>,
}

impl View for ConstraintSystem {
    type V = SystemView;

    open spec fn view(&self) -> SystemView {
        SystemView {
            modulus: self.modulus,
            num_advice: self.num_advice as nat,
            num_instance: self.num_instance as nat,
            num_selectors: self.num_selectors as nat,
            equality: self.equality@,
            gates: self.gates@,
        }
    }
}

/// A system with nothing registered yet.
pub open spec fn is_fresh(s: SystemView) -> bool {
    &&& s.num_advice == 0
    &&& s.num_instance == 0
    &&& s.num_selectors == 0
    &&& s.equality.len() == 0
    &&& s.gates.len() == 0
}

impl ConstraintSystem {
    /// An empty constraint system over the field of the given modulus.
    pub fn new(modulus: u64) -> (r: ConstraintSystem)
        requires
            valid_modulus(modulus),
        ensures
            r.modulus == modulus,
            is_fresh(r@),
    {
        ConstraintSystem {
            modulus,
            num_advice: 0,
            num_instance: 0,
            num_selectors: 0,
            equality: Vec::new(),
            gates: Vec::new(),
        }
    }

    /// Registers a new advice column.
    pub fn advice_column(&mut self) -> (r: Column)
        requires
            old(self).num_advice < usize::MAX,
        ensures
            r == (Column { index: old(self).num_advice, kind: ColumnKind::Advice }),
            final(self)@ == (SystemView { num_advice: old(self)@.num_advice + 1, ..old(self)@ }),
    {
        let r = Column { index: self.num_advice, kind: ColumnKind::Advice };
        self.num_advice = self.num_advice + 1;
        r
    }

    /// Registers a new instance column.
    pub fn instance_column(&mut self) -> (r: Column)
        requires
            old(self).num_instance < usize::MAX,
        ensures
            r == (Column { index: old(self).num_instance, kind: ColumnKind::Instance }),
            final(self)@ == (SystemView { num_instance: old(self)@.num_instance + 1, ..old(self)@ }),
    {
        let r = Column { index: self.num_instance, kind: ColumnKind::Instance };
        self.num_instance = self.num_instance + 1;
        r
    }

    /// Registers a new selector and returns its index.
    pub fn selector(&mut self) -> (r: usize)
        requires
            old(self).num_selectors < usize::MAX,
        ensures
            r == old(self).num_selectors,
            final(self)@ == (SystemView { num_selectors: old(self)@.num_selectors + 1, ..old(self)@ }),
    {
        let r = self.num_selectors;
        self.num_selectors = self.num_selectors + 1;
        r
    }

    /// Enables copy constraints on a column.
    pub fn enable_equality(&mut self, c: Column)
        ensures
            final(self)@ == (SystemView { equality: old(self)@.equality.push(c), ..old(self)@ }),
    {
        self.equality.push(c);
    }

    /// Registers a gate.
    pub fn create_gate(&mut self, g: DiffGate)
        ensures
            final(self)@ == (SystemView { gates: old(self)@.gates.push(g), ..old(self)@ }),
    {
        self.gates.push(g);
    }
}

/// The value of the latest assignment at `(column, row)`, if any.
pub open spec fn lookup(cells: Seq<AssignedCell>, column: Column, row: usize) -> Option<Option<u64>>
    decreases cells.len(),
{
    if cells.len() == 0 {
        None
    } else if cells.last().column == column && cells.last().row == row {
        Some(cells.last().value)
    } else {
        lookup(cells.drop_last(), column, row)
    }
}

/// Gate `g` holds on `row`: its three cells are assigned, the operands are
/// field elements or unknown, and the output is their difference.
pub open spec fn gate_ok(p: u64, cells: Seq<AssignedCell>, g: DiffGate, row: usize) -> bool {
    &&& row < usize::MAX
    &&& match (lookup(cells, g.lhs, row), lookup(cells, g.rhs, row), lookup(cells, g.out, (row + 1) as usize)) {
        (Some(a), Some(b), Some(o)) => is_value(p, a) && is_value(p, b) && o == sub_value(p, a, b),
        _ => false,
    }
}

/// Every copy constraint joins equal values, and every gate holds on each
/// row where its selector is enabled.
pub open spec fn satisfied(l: Layouter, gates: Seq<DiffGate>) -> bool {
    &&& forall|i: int| 0 <= i < l.copies@.len() ==> (#[trigger] l.copies@[i]).0.value == l.copies@[i].1.value
    &&& forall|i: int, j: int|
        0 <= i < l.enabled@.len() && 0 <= j < gates.len() && (#[trigger] gates[j]).selector == (
            #[trigger] l.enabled@[i]).0 ==> gate_ok(l.modulus, l.cells@, gates[j], l.enabled@[i].1)
}

/// A value placed at a cell of the table. It is a snapshot: copying it
/// elsewhere carries the value, never a reference to the cell.
#[derive(Debug, Clone, Copy, PartialEq, Eq, Structural)]
pub struct AssignedCell {
    pub column: Column,
    pub row: usize,
    pub value: Option<u64>,
}

/// The layout state of one synthesis: regions are stacked from row 0,
/// each `region_height` rows tall, within `num_rows` rows.
#[derive(Debug, Clone)]
pub struct Layouter {
    pub modulus: u64,
    pub num_rows: usize,
    pub region_height: usize,
    pub next_row: usize,
    pub equality: Vec<Column>,
    pub cells: Vec<AssignedCell>,
    pub copies: Vec<(AssignedCell, AssignedCell)>,
    pub enabled: Vec<(usize, usize)>,
    pub instance: Vec<(AssignedCell, Column, usize)>,
}

impl Layouter {
    /// The modulus is a valid one and the regions opened so far fit in the rows.
    pub open spec fn wf(&self) -> bool {
        &&& valid_modulus(self.modulus)
        &&& self.next_row <= self.num_rows
    }

    /// Every assignment so far is still in place at the same position.
    pub open spec fn extends(&self, earlier: &Layouter) -> bool {
        &&& self.modulus == earlier.modulus
        &&& self.num_rows == earlier.num_rows
        &&& self.region_height == earlier.region_height
        &&& self.equality@ == earlier.equality@
        &&& earlier.cells@.is_prefix_of(self.cells@)
        &&& earlier.copies@.is_prefix_of(self.copies@)
        &&& earlier.enabled@.is_prefix_of(self.enabled@)
        &&& earlier.instance@.is_prefix_of(self.instance@)
    }

    /// A fresh layout over `num_rows` rows for the given constraint system.
    pub fn new(cs: &ConstraintSystem, num_rows: usize, region_height: usize) -> (r: Layouter)
        requires
            valid_modulus(cs.modulus),
        ensures
            r.wf(),
            r.modulus == cs.modulus,
            r.num_rows == num_rows,
            r.region_height == region_height,
            r.next_row == 0,
            r.equality@ == cs.equality@,
            r.cells@.len() == 0,
            r.copies@.len() == 0,
            r.enabled@.len() == 0,
            r.instance@.len() == 0,
    {
        Layouter {
            modulus: cs.modulus,
            num_rows,
            region_height,
            next_row: 0,
            equality: cs.equality.clone(),
            cells: Vec::new(),
            copies: Vec::new(),
            enabled: Vec::new(),
            instance: Vec::new(),
        }
    }

    pub open spec fn equality_spec(&self, c: Column) -> bool {
        self.equality@.contains(c)
    }

    /// Whether copy constraints are enabled on a column.
    pub fn equality_enabled(&self, c: Column) -> (r: bool)
        ensures
            r == self.equality_spec(c),
    {
        let mut i: usize = 0;
        while i < self.equality.len()
            invariant
                i <= self.equality@.len(),
                forall|j: int| 0 <= j < i ==> self.equality@[j] != c,
            decreases self.equality@.len() - i,
        {
            if self.equality[i] == c {
                return true;
            }
            i = i + 1;
        }
        false
    }

    /// Opens a region of `region_height` rows and returns its first row.
    pub fn open_region(&mut self) -> (r: Result<usize, Error>)
        requires
            old(self).wf(),
        ensures
            final(self).wf(),
            final(self).extends(old(self)),
            final(self).cells@ == old(self).cells@,
            final(self).copies@ == old(self).copies@,
            final(self).enabled@ == old(self).enabled@,
            final(self).instance@ == old(self).instance@,
            old(self).next_row + old(self).region_height <= old(self).num_rows ==> {
                &&& r == Ok::<usize, Error>(old(self).next_row)
                &&& final(self).next_row == old(self).next_row + old(self).region_height
            },
            old(self).next_row + old(self).region_height > old(self).num_rows ==> {
                &&& r == Err::<usize, Error>(Error::NotEnoughRows)
                &&& final(self).next_row == old(self).next_row
            },
    {
        if self.region_height > self.num_rows - self.next_row {
            Err(Error::NotEnoughRows)
        } else {
            let start = self.next_row;
            self.next_row = self.next_row + self.region_height;
            Ok(start)
        }
    }

    /// Places a witness value at `offset` in the region that starts at `start`.
    pub fn assign_advice(&mut self, start: usize, column: Column, offset: usize, value: Option<u64>)
        -> (r: Result<AssignedCell, Error>)
        requires
            old(self).wf(),
            start + old(self).region_height <= old(self).num_rows,
            is_value(old(self).modulus, value),
        ensures
            final(self).wf(),
            final(self).extends(old(self)),
            final(self).next_row == old(self).next_row,
            final(self).copies@ == old(self).copies@,
            final(self).enabled@ == old(self).enabled@,
            final(self).instance@ == old(self).instance@,
            offset < old(self).region_height ==> {
                let cell = AssignedCell { column, row: (start + offset) as usize, value };
                &&& r == Ok::<AssignedCell, Error>(cell)
                &&& final(self).cells@ == old(self).cells@.push(cell)
            },
            offset >= old(self).region_height ==> {
                &&& r == Err::<AssignedCell, Error>(Error::RegionBound)
                &&& final(self).cells@ == old(self).cells@
            },
    {
        if offset >= self.region_height {
            return Err(Error::RegionBound);
        }
        let cell = AssignedCell { column, row: start + offset, value };
        self.cells.push(cell);
        proof {
            assert(old(self).cells@.is_prefix_of(self.cells@));
        }
        Ok(cell)
    }

    /// Enables a selector at `offset` in the region that starts at `start`.
    pub fn enable_selector(&mut self, start: usize, selector: usize, offset: usize) -> (r: Result<(), Error>)
        requires
            old(self).wf(),
            start + old(self).region_height <= old(self).num_rows,
        ensures
            final(self).wf(),
            final(self).extends(old(self)),
            final(self).next_row == old(self).next_row,
            final(self).cells@ == old(self).cells@,
            final(self).copies@ == old(self).copies@,
            final(self).instance@ == old(self).instance@,
            offset < old(self).region_height ==> {
                &&& r == Ok::<(), Error>(())
                &&& final(self).enabled@ == old(self).enabled@.push((selector, (start + offset) as usize))
            },
            offset >= old(self).region_height ==> {
                &&& r == Err::<(), Error>(Error::RegionBound)
                &&& final(self).enabled@ == old(self).enabled@
            },
    {
        if offset >= self.region_height {
            return Err(Error::RegionBound);
        }
        self.enabled.push((selector, start + offset));
        proof {
            assert(old(self).enabled@.is_prefix_of(self.enabled@));
        }
        Ok(())
    }
    /// Copies `cell` into `offset` of the region that starts at `start`, and
    /// binds the two cells by a copy constraint. The new cell holds the value
    /// that `cell` holds.
    pub fn copy_advice(&mut self, cell: AssignedCell, start: usize, column: Column, offset: usize)
        -> (r: Result<AssignedCell, Error>)
        requires
            old(self).wf(),
            start + old(self).region_height <= old(self).num_rows,
        ensures
            final(self).wf(),
            final(self).extends(old(self)),
            final(self).next_row == old(self).next_row,
            final(self).enabled@ == old(self).enabled@,
            final(self).instance@ == old(self).instance@,
            offset >= old(self).region_height ==> r == Err::<AssignedCell, Error>(Error::RegionBound),
            offset < old(self).region_height && !(old(self).equality_spec(cell.column)
                && old(self).equality_spec(column)) ==> r == Err::<AssignedCell, Error>(
                Error::EqualityNotEnabled,
            ),
            r.is_err() ==> final(self).cells@ == old(self).cells@ && final(self).copies@ == old(
                self,
            ).copies@,
            offset < old(self).region_height && old(self).equality_spec(cell.column)
                && old(self).equality_spec(column) ==> {
                let copied = AssignedCell { column, row: (start + offset) as usize, value: cell.value };
                &&& r == Ok::<AssignedCell, Error>(copied)
                &&& final(self).cells@ == old(self).cells@.push(copied)
                &&& final(self).copies@ == old(self).copies@.push((cell, copied))
            },
    {
        if offset >= self.region_height {
            return Err(Error::RegionBound);
        }
        if !self.equality_enabled(cell.column) || !self.equality_enabled(column) {
            return Err(Error::EqualityNotEnabled);
        }
        let copied = AssignedCell { column, row: start + offset, value: cell.value };
        self.cells.push(copied);
        self.copies.push((cell, copied));
        proof {
            assert(old(self).cells@.is_prefix_of(self.cells@));
            assert(old(self).copies@.is_prefix_of(self.copies@));
        }
        Ok(copied)
    }

    /// Binds `cell` to `row` of an instance column, making its value public.
    pub fn constrain_instance(&mut self, cell: AssignedCell, column: Column, row: usize) -> (r: Result<(), Error>)
        requires
            old(self).wf(),
        ensures
            final(self).wf(),
            final(self).extends(old(self)),
            final(self).next_row == old(self).next_row,
            final(self).cells@ == old(self).cells@,
            final(self).copies@ == old(self).copies@,
            final(self).enabled@ == old(self).enabled@,
            row >= old(self).num_rows ==> r == Err::<(), Error>(Error::RegionBound),
            row < old(self).num_rows && !(old(self).equality_spec(cell.column) && old(
                self,
            ).equality_spec(column)) ==> r == Err::<(), Error>(Error::EqualityNotEnabled),
            r.is_err() ==> final(self).instance@ == old(self).instance@,
            row < old(self).num_rows && old(self).equality_spec(cell.column) && old(
                self,
            ).equality_spec(column) ==> {
                &&& r == Ok::<(), Error>(())
                &&& final(self).instance@ == old(self).instance@.push((cell, column, row))
            },
    {
        if row >= self.num_rows {
            return Err(Error::RegionBound);
        }
        if !self.equality_enabled(cell.column) || !self.equality_enabled(column) {
            return Err(Error::EqualityNotEnabled);
        }
        self.instance.push((cell, column, row));
        proof {
            assert(old(self).instance@.is_prefix_of(self.instance@));
        }
        Ok(())
    }
    /// The value of the latest assignment at `(column, row)`, if any.
    pub fn lookup(&self, column: Column, row: usize) -> (r: Option<Option<u64>>)
        ensures
            r == lookup(self.cells@, column, row),
    {
        let mut i: usize = self.cells.len();
        proof {
            assert(self.cells@.subrange(0, i as int) =~= self.cells@);
        }
        while i > 0
            invariant
                i <= self.cells@.len(),
                lookup(self.cells@, column, row) == lookup(self.cells@.subrange(0, i as int), column, row),
            decreases i,
        {
            let c = self.cells[i - 1];
            proof {
                assert(self.cells@.subrange(0, i as int).drop_last() =~= self.cells@.subrange(0, i - 1));
            }
            if c.column == column && c.row == row {
                return Some(c.value);
            }
            i = i - 1;
        }
        None
    }

    /// Whether gate `g` holds on `row`.
    pub fn check_gate(&self, g: DiffGate, row: usize) -> (r: bool)
        requires
            self.wf(),
        ensures
            r == gate_ok(self.modulus, self.cells@, g, row),
    {
        if row == usize::MAX {
            return false;
        }
        match (self.lookup(g.lhs, row), self.lookup(g.rhs, row), self.lookup(g.out, row + 1)) {
            (Some(a), Some(b), Some(o)) => {
                let a_ok = match a { Some(v) => v < self.modulus, None => true };
                let b_ok = match b { Some(v) => v < self.modulus, None => true };
                if !a_ok || !b_ok {
                    return false;
                }
                o == value_sub(self.modulus, a, b)
            },
            _ => false,
        }
    }

    /// Whether the layout satisfies the given gates and its copy constraints.
    pub fn is_satisfied(&self, gates: &Vec<DiffGate>) -> (r: bool)
        requires
            self.wf(),
        ensures
            r == satisfied(*self, gates@),
    {
        let mut i: usize = 0;
        while i < self.copies.len()
            invariant
                i <= self.copies@.len(),
                forall|k: int| 0 <= k < i ==> (#[trigger] self.copies@[k]).0.value == self.copies@[k].1.value,
            decreases self.copies@.len() - i,
        {
            if self.copies[i].0.value != self.copies[i].1.value {
                return false;
            }
            i = i + 1;
        }
        let mut e: usize = 0;
        while e < self.enabled.len()
            invariant
                self.wf(),
                e <= self.enabled@.len(),
                forall|k: int| 0 <= k < self.copies@.len() ==> (#[trigger] self.copies@[k]).0.value
                    == self.copies@[k].1.value,
                forall|a: int, j: int|
                    0 <= a < e && 0 <= j < gates@.len() && (#[trigger] gates@[j]).selector == (
                        #[trigger] self.enabled@[a]).0 ==> gate_ok(self.modulus, self.cells@, gates@[j], self.enabled@[a].1),
            decreases self.enabled@.len() - e,
        {
            let (sel, row) = self.enabled[e];
            let mut j: usize = 0;
            while j < gates.len()
                invariant
                    self.wf(),
                    e < self.enabled@.len(),
                    (sel, row) == self.enabled@[e as int],
                    j <= gates@.len(),
                    forall|k: int| 0 <= k < j && (#[trigger] gates@[k]).selector == sel ==> gate_ok(
                        self.modulus, self.cells@, gates@[k], row),
                decreases gates@.len() - j,
            {
                if gates[j].selector == sel && !self.check_gate(gates[j], row) {
                    return false;
                }
                j = j + 1;
            }
            e = e + 1;
        }
        true
    }
}

} // verus!
