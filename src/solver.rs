use vstd::prelude::*;

use crate::formula::Balance;
use crate::grid::cube;
use crate::setup::BoundaryConditions;
use crate::sweep::{accepts_all, swept, sweep};

verus! {

/// Which norm measured the change between two successive fields.
#[derive(Clone, Copy, Debug, PartialEq, Eq, Structural)]
pub enum ErrorType {
    InfinityNorm,
    L1Norm,
    L2Norm,
}

/// A copy of the whole field after one sweep, in the order x, then y, then z
/// (the node `(x, y, z)` at `x*n*n + y*n + z`).
#[derive(Clone, Debug)]
pub struct StepData<T> {
    pub step: usize,
    pub data: Vec<T>,
}

/// The change measured after each sweep, in sweep order.
#[derive(Clone, Debug)]
pub struct ErrorData<T> {
    pub error_type: ErrorType,
    pub data: Vec<T>,
}

impl<T> ErrorData<T> {
    /// Records the change measured after one more sweep.
    pub fn add_error(&mut self, new_point: T)
        ensures
            final(self).error_type == old(self).error_type,
            final(self).data@ == old(self).data@.push(new_point),
    {
        self.data.push(new_point);
    }
}

/// What a finished run hands back: the recorded snapshots, the change after
/// every sweep, and the number of nodes per axis.
#[derive(Clone, Debug)]
pub struct SimulationResult<T> {
    pub step_data: Vec<StepData<T>>,
    pub error_decay: ErrorData<T>,
    pub size: usize,
}

/// Why a run cannot start.
#[derive(Clone, Copy, Debug, PartialEq, Eq, Structural)]
pub enum ConfigError {
    /// Fewer than two nodes per axis.
    TooFewDivisions,
    /// `divisions` cubed does not fit in a `usize`.
    TooManyNodes,
    /// Snapshots must be taken every so many sweeps, at least every one.
    NoRecordingInterval,
}

/// Whether `n * n * n` fits in a `usize`.
pub open spec fn fits(n: int) -> bool {
    cube(n) <= usize::MAX
}

/// The state of a Jacobi relaxation between two sweeps.
///
/// `previous` is the field that the next sweep reads; `step` counts the
/// sweeps completed so far. Once `converged` holds the run is over.
#[derive(Debug)]
pub struct Relaxation<T> {
    pub previous: Vec<T>,
    pub divisions: usize,
    pub steps_before_recording: usize,
    pub step: usize,
    pub converged: bool,
    pub step_data: Vec<StepData<T>>,
    pub error_decay: ErrorData<T>,
}

fn copy_field<T: Copy>(v: &Vec<T>) -> (r: Vec<T>)
    ensures
        r@ == v@,
{
    let mut r: Vec<T> = Vec::with_capacity(v.len());
    let mut i: usize = 0;
    while i < v.len()
        invariant
            i <= v@.len(),
            r@ == v@.subrange(0, i as int),
        decreases v@.len() - i,
    {
        r.push(v[i]);
        i = i + 1;
    }
    assert(r@ =~= v@);
    r
}

impl<T: Copy> Relaxation<T> {
    /// The field has one value per node and the recording interval is set.
    pub open spec fn wf(&self) -> bool {
        &&& 2 <= self.divisions
        &&& self.previous@.len() == cube(self.divisions as int)
        &&& 0 < self.steps_before_recording
    }

    /// Starts a run on a grid of `divisions` nodes per axis, every node at
    /// `seed`, taking a snapshot every `steps_before_recording` sweeps.
    pub fn new(
        divisions: usize,
        seed: T,
        steps_before_recording: usize,
        error_type: ErrorType,
    ) -> (r: Result<Relaxation<T>, ConfigError>)
        ensures
            divisions < 2 ==> r == Err::<Relaxation<T>, ConfigError>(ConfigError::TooFewDivisions),
            2 <= divisions && !fits(divisions as int) ==> r == Err::<Relaxation<T>, ConfigError>(
                ConfigError::TooManyNodes,
            ),
            2 <= divisions && fits(divisions as int) && steps_before_recording == 0 ==> r == Err::<
                Relaxation<T>,
                ConfigError,
            >(ConfigError::NoRecordingInterval),
            r is Ok <==> 2 <= divisions && fits(divisions as int) && 0 < steps_before_recording,
            r matches Ok(s) ==> {
                &&& s.wf()
                &&& s.divisions == divisions
                &&& s.steps_before_recording == steps_before_recording
                &&& s.previous@ == Seq::new(cube(divisions as int) as nat, |i: int| seed)
                &&& s.step == 0
                &&& !s.converged
                &&& s.step_data@.len() == 0
                &&& s.error_decay.error_type == error_type
                &&& s.error_decay.data@.len() == 0
            },
    {
        if divisions < 2 {
            return Err(ConfigError::TooFewDivisions);
        }
        let len = match divisions.checked_mul(divisions) {
            Some(nn) => nn.checked_mul(divisions),
            None => None,
        };
        proof {
            assert(divisions * divisions <= divisions * divisions * divisions) by (nonlinear_arith)
                requires
                    1 <= divisions,
            ;
        }
        let len = match len {
            Some(len) => len,
            None => {
                return Err(ConfigError::TooManyNodes);
            },
        };
        if steps_before_recording == 0 {
            return Err(ConfigError::NoRecordingInterval);
        }
        let mut previous: Vec<T> = Vec::with_capacity(len);
        let mut i: usize = 0;
        while i < len
            invariant
                i <= len,
                previous@ == Seq::new(i as nat, |j: int| seed),
            decreases len - i,
        {
            previous.push(seed);
            i = i + 1;
            assert(previous@ =~= Seq::new(i as nat, |j: int| seed));
        }
        Ok(
            Relaxation {
                previous,
                divisions,
                steps_before_recording,
                step: 0,
                converged: false,
                step_data: Vec::new(),
                error_decay: ErrorData { error_type, data: Vec::new() },
            },
        )
    }

    /// Whether the sweep that comes next is one whose result is recorded.
    pub open spec fn records(&self) -> bool {
        self.step % self.steps_before_recording == 0
    }

    /// Computes the next field from `previous` by one Jacobi sweep.
    pub fn sweep<F: Fn(Balance<T>) -> T>(
        &self,
        bcs: &BoundaryConditions<T>,
        outside: T,
        formula: &F,
    ) -> (r: Vec<T>)
        requires
            self.wf(),
            bcs.wf(),
            accepts_all(*formula),
        ensures
            swept(bcs.setup(), self.previous@, self.divisions as int, outside, *formula, r@),
    {
        sweep(bcs, &self.previous, self.divisions, outside, formula)
    }

    /// Ends a sweep that produced `current`, whose change from `previous`
    /// measured `error`; `below_epsilon` tells whether that change is under
    /// the convergence threshold. Takes a snapshot every
    /// `steps_before_recording` sweeps (sweep 0 included), records the change,
    /// and either ends the run or makes `current` the field for the next
    /// sweep. Returns whether the run has converged.
    pub fn complete_sweep(&mut self, current: Vec<T>, error: T, below_epsilon: bool) -> (r: bool)
        requires
            old(self).wf(),
            !old(self).converged,
            current@.len() == old(self).previous@.len(),
            old(self).step < usize::MAX,
        ensures
            final(self).wf(),
            r == below_epsilon,
            final(self).converged == below_epsilon,
            final(self).divisions == old(self).divisions,
            final(self).steps_before_recording == old(self).steps_before_recording,
            old(self).records() ==> final(self).step_data@.len() == old(self).step_data@.len() + 1
                && final(self).step_data@.drop_last() == old(self).step_data@
                && final(self).step_data@.last().step == old(self).step
                && final(self).step_data@.last().data@ == current@,
            !old(self).records() ==> final(self).step_data@ == old(self).step_data@,
            final(self).error_decay.error_type == old(self).error_decay.error_type,
            final(self).error_decay.data@ == old(self).error_decay.data@.push(error),
            below_epsilon ==> final(self).previous@ == old(self).previous@ && final(self).step
                == old(self).step,
            !below_epsilon ==> final(self).previous@ == current@ && final(self).step == old(
                self,
            ).step + 1,
    {
        if self.step % self.steps_before_recording == 0 {
            let data = copy_field(&current);
            self.step_data.push(StepData { step: self.step, data });
        }
        self.error_decay.add_error(error);
        if below_epsilon {
            self.converged = true;
        } else {
            self.previous = current;
            self.step = self.step + 1;
        }
        below_epsilon
    }

    /// Hands back the snapshots, the recorded changes and the grid size.
    pub fn into_result(self) -> (r: SimulationResult<T>)
        ensures
            r.step_data@ == self.step_data@,
            r.error_decay.error_type == self.error_decay.error_type,
            r.error_decay.data@ == self.error_decay.data@,
            r.size == self.divisions,
    {
        SimulationResult {
            step_data: self.step_data,
            error_decay: self.error_decay,
            size: self.divisions,
        }
    }
}

} // verus!
