//! Process-wide settings: how many jobs run at once.

use vstd::prelude::*;

verus! {

/// The settings of a run. The number of jobs is never zero.
#[derive(Debug)]
pub struct Settings {
    jobs: usize,
}

impl Settings {
    #[verifier::type_invariant]
    spec fn jobs_positive(self) -> bool {
        self.jobs > 0
    }

    /// The number of jobs that the settings hold.
    pub closed spec fn spec_jobs(self) -> usize {
        self.jobs
    }

    /// The default settings on a machine with `available_parallelism`
    /// hardware threads: one job per thread.
    pub fn from_parallelism(available_parallelism: usize) -> (r: Settings)
        requires
            available_parallelism > 0,
        ensures
            r.spec_jobs() == available_parallelism,
    {
        Settings { jobs: available_parallelism }
    }

    /// Sets the number of jobs.
    pub fn set_jobs(&mut self, jobs: usize)
        requires
            jobs > 0,
        ensures
            final(self).spec_jobs() == jobs,
    {
        self.jobs = jobs;
    }

    /// The number of jobs, which is never zero.
    pub fn jobs(&self) -> (r: usize)
        ensures
            r == self.spec_jobs(),
            r > 0,
    {
        proof {
            use_type_invariant(self);
        }
        self.jobs
    }
}

} // verus!
