//! The decisions of the renderer's progress reporter. Once a second the
//! reporter looks at how many columns are still waiting in the shared job
//! list; from that count alone this state machine decides whether rendering is
//! over, whether there is nothing new to report, or what to report.
use vstd::prelude::*;

verus! {

/// What the reporter does after one look at the job list.
#[derive(Clone, Copy, Debug, PartialEq, Eq, Structural)]
pub enum ProgressUpdate {
    /// The job list is empty: rendering is over.
    Finished,
    /// Nothing to report: the count has not moved, or no column is done yet.
    Unchanged,
    /// Report progress: `finished_job` columns are done and
    /// `remaining_job` (those waiting plus one per rendering thread) are not.
    Report { finished_job: usize, remaining_job: usize },
}

/// The reporter's state: the number of columns, of rendering threads, and the
/// count of waiting columns at the last report.
pub struct ProgressEstimator {
    total_job: usize,
    cores: usize,
    last_length: usize,
}

impl ProgressEstimator {
    /// The number of columns to render.
    pub closed spec fn total_job(&self) -> usize {
        self.total_job
    }

    /// The number of rendering threads, each holding at most one column.
    pub closed spec fn cores(&self) -> usize {
        self.cores
    }

    /// The count of waiting columns when the last report was made.
    pub closed spec fn last_length(&self) -> usize {
        self.last_length
    }

    /// The reporter at the start: every column is still waiting.
    pub fn new(total_job: usize, cores: usize) -> (estimator: Self)
        ensures
            estimator.total_job() == total_job,
            estimator.cores() == cores,
            estimator.last_length() == total_job,
    {
        ProgressEstimator { total_job, cores, last_length: total_job }
    }

    /// One look at the job list, which holds `length` waiting columns.
    /// A count above what the threads can have left (`total_job - cores`) is
    /// refused: the reporter's subtraction would underflow.
    pub fn observe(&mut self, length: usize) -> (update: ProgressUpdate)
        requires
            length == 0 || old(self).cores() + length <= old(self).total_job(),
        ensures
            final(self).total_job() == old(self).total_job(),
            final(self).cores() == old(self).cores(),
            length == 0 ==> update == ProgressUpdate::Finished && final(self).last_length()
                == old(self).last_length(),
            length != 0 && (length == old(self).last_length() || old(self).total_job()
                - old(self).cores() - length == 0) ==> update == ProgressUpdate::Unchanged
                && final(self).last_length() == old(self).last_length(),
            length != 0 && length != old(self).last_length() && old(self).total_job() - old(
                self,
            ).cores() - length != 0 ==> update == (ProgressUpdate::Report {
                finished_job: (old(self).total_job() - old(self).cores() - length) as usize,
                remaining_job: (length + old(self).cores()) as usize,
            }) && final(self).last_length() == length,
            update matches ProgressUpdate::Report { finished_job, remaining_job }
                ==> finished_job + remaining_job == old(self).total_job() && finished_job > 0,
    {
        if length == 0 {
            return ProgressUpdate::Finished;
        }
        let finished_job = self.total_job - self.cores - length;
        if length == self.last_length || finished_job == 0 {
            return ProgressUpdate::Unchanged;
        }
        self.last_length = length;
        ProgressUpdate::Report { finished_job, remaining_job: length + self.cores }
    }
}

} // verus!
