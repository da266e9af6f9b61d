use vstd::prelude::*;

use crate::error::SysError;

verus! {

/// Which part of the transaction a host accessor query addresses: a consumed
/// input cell, a created output cell, or a read-only dependency cell.
#[derive(Clone, Copy, Debug, PartialEq, Eq, Structural)]
pub enum Source {
    Input,
    Output,
    CellDep,
}

/// One cell of the transaction as the host exposes it: the argument bytes of
/// its lock script, the argument bytes of its optional type script, and its
/// raw data payload.
#[derive(Clone, Debug)]
pub struct CellInfo {
    pub lock_args: Vec<u8>,
    pub type_args: Option<Vec<u8>>,
    pub data: Vec<u8>,
}

/// One witness entry: two optional typed byte payloads, one designated for
/// the input side and one for the output side.
#[derive(Clone, Debug)]
pub struct WitnessArgs {
    pub input_type: Option<Vec<u8>>,
    pub output_type: Option<Vec<u8>>,
}

/// A read-only snapshot of the enclosing transaction, as supplied by the
/// execution host for exactly one verification call: the cells of each side,
/// the witness entries (shared by all sides), and the argument bytes of the
/// invoking script itself (`None` when the host cannot supply them).
#[derive(Clone, Debug)]
pub struct Transaction {
    pub inputs: Vec<CellInfo>,
    pub outputs: Vec<CellInfo>,
    pub cell_deps: Vec<CellInfo>,
    pub witnesses: Vec<WitnessArgs>,
    pub script_args: Option<Vec<u8>>,
}

impl Transaction {
    /// The cells a given source addresses.
    pub open spec fn cells_of(self, source: Source) -> Seq<CellInfo> {
        match source {
            Source::Input => self.inputs@,
            Source::Output => self.outputs@,
            Source::CellDep => self.cell_deps@,
        }
    }

    /// Looks a cell up by index and source; an index past the end is the
    /// host's out-of-range signal.
    pub fn load_cell(&self, index: usize, source: Source) -> (r: Result<&CellInfo, SysError>)
        ensures
            index < self.cells_of(source).len() ==> (r matches Ok(c) && *c == self.cells_of(
                source,
            )[index as int]),
            index >= self.cells_of(source).len() ==> (r matches Err(e) && e
                == SysError::IndexOutOfBound),
    {
        let cells: &Vec<CellInfo> = match source {
            Source::Input => &self.inputs,
            Source::Output => &self.outputs,
            Source::CellDep => &self.cell_deps,
        };
        if index < cells.len() {
            Ok(&cells[index])
        } else {
            Err(SysError::IndexOutOfBound)
        }
    }

    /// The argument bytes of a cell's lock script.
    pub fn load_lock_script(&self, index: usize, source: Source) -> (r: Result<&Vec<u8>, SysError>)
        ensures
            index < self.cells_of(source).len() ==> (r matches Ok(a) && a@ == self.cells_of(
                source,
            )[index as int].lock_args@),
            index >= self.cells_of(source).len() ==> (r matches Err(e) && e
                == SysError::IndexOutOfBound),
    {
        match self.load_cell(index, source) {
            Ok(cell) => Ok(&cell.lock_args),
            Err(e) => Err(e),
        }
    }

    /// The argument bytes of a cell's type script; a cell may carry none.
    pub fn load_type_script(&self, index: usize, source: Source) -> (r: Result<
        Option<&Vec<u8>>,
        SysError,
    >)
        ensures
            index < self.cells_of(source).len() ==> {
                let cell = self.cells_of(source)[index as int];
                match r {
                    Ok(opt) => match opt {
                        Some(a) => (cell.type_args matches Some(t) && a@ == t@),
                        None => cell.type_args is None,
                    },
                    Err(_) => false,
                }
            },
            index >= self.cells_of(source).len() ==> (r matches Err(e) && e
                == SysError::IndexOutOfBound),
    {
        match self.load_cell(index, source) {
            Ok(cell) => Ok(cell.type_args.as_ref()),
            Err(e) => Err(e),
        }
    }

    /// A cell's raw data payload.
    pub fn load_cell_data(&self, index: usize, source: Source) -> (r: Result<&Vec<u8>, SysError>)
        ensures
            index < self.cells_of(source).len() ==> (r matches Ok(d) && d@ == self.cells_of(
                source,
            )[index as int].data@),
            index >= self.cells_of(source).len() ==> (r matches Err(e) && e
                == SysError::IndexOutOfBound),
    {
        match self.load_cell(index, source) {
            Ok(cell) => Ok(&cell.data),
            Err(e) => Err(e),
        }
    }

    /// A witness entry by index. The witness list is one per transaction and
    /// shared by every source, so the source does not change which entry an
    /// index addresses.
    pub fn load_witness_args(&self, index: usize, _source: Source) -> (r: Result<
        &WitnessArgs,
        SysError,
    >)
        ensures
            index < self.witnesses@.len() ==> (r matches Ok(w) && *w
                == self.witnesses@[index as int]),
            index >= self.witnesses@.len() ==> (r matches Err(e) && e
                == SysError::IndexOutOfBound),
    {
        if index < self.witnesses.len() {
            Ok(&self.witnesses[index])
        } else {
            Err(SysError::IndexOutOfBound)
        }
    }

    /// The argument bytes of the invoking script.
    pub fn load_script(&self) -> (r: Result<&Vec<u8>, SysError>)
        ensures
            self.script_args matches Some(a) ==> (r matches Ok(s) && s@ == a@),
            self.script_args is None ==> (r matches Err(e) && e == SysError::ItemMissing),
    {
        match &self.script_args {
            Some(a) => Ok(a),
            None => Err(SysError::ItemMissing),
        }
    }
}

} // verus!
