use vstd::prelude::*;
use crate::errors::JobError;
use crate::status::Status;

verus! {

/// The first error in a sequence of writer outcomes, in registration order,
/// or `None` when every writer succeeded.
pub open spec fn first_writer_error(ws: Seq<Result<(), JobError>>) -> Option<JobError>
    decreases ws.len(),
{
    if ws.len() == 0 {
        None
    } else {
        match ws.first() {
            Result::Err(e) => Some(e),
            Result::Ok(_) => first_writer_error(ws.drop_first()),
        }
    }
}

/// Reduces the joined task outcomes of one job to its final result: the
/// reader's outcome is considered first, then every writer's in registration
/// order, and the first error encountered wins; when every task succeeded the
/// status reports the reader's byte count and the number of writers.
pub fn aggregate(reader: Result<usize, JobError>, writers: Vec<Result<(), JobError>>) -> (r:
    Result<Status, JobError>)
    ensures
        reader is Err ==> r == Result::<Status, JobError>::Err(reader->Err_0),
        reader is Ok ==> r == (match first_writer_error(writers@) {
            Some(e) => Result::<Status, JobError>::Err(e),
            None => Result::<Status, JobError>::Ok(
                Status { bytes_copied: reader->Ok_0, num_of_files: writers@.len() as usize },
            ),
        }),
{
    let num_of_files = writers.len();
    let bytes_copied = match reader {
        Result::Ok(n) => n,
        Result::Err(e) => {
            return Result::Err(e);
        },
    };
    let mut rest = writers;
    while rest.len() > 0
        invariant
            reader is Ok && reader->Ok_0 == bytes_copied,
            num_of_files == writers@.len(),
            first_writer_error(writers@) == first_writer_error(rest@),
        decreases rest@.len(),
    {
        let ghost prev = rest@;
        let w = rest.remove(0);
        proof {
            assert(rest@ =~= prev.drop_first());
        }
        match w {
            Result::Ok(_) => {},
            Result::Err(e) => {
                return Result::Err(e);
            },
        }
    }
    Result::Ok(Status { bytes_copied, num_of_files })
}

} // verus!
