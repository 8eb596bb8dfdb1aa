//! Running a workflow's own logic.
use vstd::prelude::*;

use crate::{Workflow, WorkflowError};

verus! {

/// The logic of a workflow, which fills the workflow's response.
pub trait Runnable {
    type Error: WorkflowError;

    fn run(self, workflow: &mut Workflow) -> Result<(), Self::Error>;
}

/// Records the result of a run: an error is shown as an item in front of
/// the others; nothing else changes.
pub fn finish_run<E: WorkflowError>(workflow: &mut Workflow, result: Result<(), E>)
    ensures
        result is Ok ==> *final(workflow) == *old(workflow),
        result is Err ==> {
            &&& final(workflow).response.items@.len() == old(workflow).response.items@.len() + 1
            &&& final(workflow).response.items@.drop_first() == old(workflow).response.items@
            &&& *final(workflow) == (Workflow {
                response: final(workflow).response,
                ..*old(workflow)
            })
        },
{
    match result {
        Ok(()) => {},
        Err(e) => {
            let item = e.error_item();
            workflow.prepend_item(item);
            assert(workflow.response.items@.drop_first() =~= old(workflow).response.items@);
        },
    }
}

/// Runs `runnable` on `workflow`, then records its result.
pub fn execute<R: Runnable>(workflow: &mut Workflow, runnable: R) {
    let result = runnable.run(workflow);
    finish_run(workflow, result);
}

} // verus!
