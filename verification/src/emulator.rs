use crate::cpu::{I8080, Outcome, MEMORY_SIZE};
use crate::isa::{initial_state, reaches, runs_to};
use vstd::prelude::*;

verus! {

/// Builds a machine, loads the program image at address 0, and drives it for
/// at most `max_cycles` cycles. Returns the machine — stopped, or still
/// running with the budget spent — and how the run ended, for the caller to
/// report.
pub fn emulator(buffer: &Vec<u8>, max_cycles: u64) -> (res: (I8080, Outcome))
    requires
        buffer@.len() <= MEMORY_SIZE,
    ensures
        res.0.wf(),
        exists|start: I8080|
            #[trigger] initial_state(start, buffer@) && if res.1 == Outcome::Normal {
                reaches(start, res.0, max_cycles as int)
            } else {
                runs_to(start, res.0, res.1)
            },
{
    let mut i8080 = I8080::new();
    i8080.load(buffer);
    let ghost start = i8080;
    let r = i8080.run(max_cycles);
    proof {
        assert(initial_state(start, buffer@));
    }
    (i8080, r)
}

} // verus!
