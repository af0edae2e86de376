//! Settings of a run and the defaults they fall back to.

use vstd::prelude::*;

verus! {

/// Archive jobs allowed to run at once when the configuration names no number.
pub const DEFAULT_NUM_WORKERS: usize = 4;

/// Settings of one run.
#[derive(Debug)]
pub struct Config {
    pub database: DatabaseConfig,
    pub archive: ArchiveConfig,
    pub runner: Option<RunnerConfig>,
}

/// Where the website store lives.
#[derive(Debug)]
pub struct DatabaseConfig {
    pub url: String,
}

/// The archive program and where its results go.
#[derive(Debug)]
pub struct ArchiveConfig {
    pub output_dir: String,
    /// The program followed by its argument template.
    pub command: Vec<String>,
}

/// Limits of one run.
#[derive(Debug)]
pub struct RunnerConfig {
    pub num_threads: Option<usize>,
    pub num_runs: Option<usize>,
    pub num_workers: Option<usize>,
}

impl ArchiveConfig {
    /// The program to run: the first word of the command, or `wget`.
    pub fn program(&self) -> (r: String)
        ensures
            self.command@.len() > 0 ==> r@ == self.command@[0]@,
            self.command@.len() == 0 ==> r@ == "wget"@,
    {
        if self.command.len() > 0 {
            self.command[0].clone()
        } else {
            "wget".to_owned()
        }
    }

    /// The argument template: every word of the command after the first.
    pub fn program_args(&self) -> (r: Vec<String>)
        ensures
            self.command@.len() == 0 ==> r@.len() == 0,
            self.command@.len() > 0 ==> r@.len() == self.command@.len() - 1,
            forall|k: int| 0 <= k < r@.len() ==> #[trigger] r@[k]@ == self.command@[k + 1]@,
    {
        let mut r: Vec<String> = Vec::new();
        let mut k: usize = 1;
        while k < self.command.len()
            invariant
                1 <= k,
                self.command@.len() > 0 ==> k <= self.command@.len(),
                k <= self.command@.len() + 1,
                r@.len() == k - 1,
                forall|j: int| 0 <= j < r@.len() ==> #[trigger] r@[j]@ == self.command@[j + 1]@,
            decreases self.command@.len() - k,
        {
            r.push(self.command[k].clone());
            k = k + 1;
        }
        r
    }
}

impl Config {
    /// How many archive jobs may run at once.
    pub fn num_workers(&self) -> (r: usize)
        ensures
            r == match self.runner {
                Some(rc) => match rc.num_workers {
                    Some(n) => n,
                    None => DEFAULT_NUM_WORKERS,
                },
                None => DEFAULT_NUM_WORKERS,
            },
    {
        match &self.runner {
            Some(rc) => match rc.num_workers {
                Some(n) => n,
                None => DEFAULT_NUM_WORKERS,
            },
            None => DEFAULT_NUM_WORKERS,
        }
    }

    /// Worker threads asked for, if any.
    pub fn num_threads(&self) -> (r: Option<usize>)
        ensures
            r == match self.runner {
                Some(rc) => rc.num_threads,
                None => None,
            },
    {
        match &self.runner {
            Some(rc) => rc.num_threads,
            None => None,
        }
    }

    /// How many of `available` websites this run takes: all of them, or the
    /// configured number of runs where that is smaller.
    pub fn num_websites(&self, available: usize) -> (r: usize)
        ensures
            r == match self.runner {
                Some(rc) => match rc.num_runs {
                    Some(n) => if n < available {
                        n
                    } else {
                        available
                    },
                    None => available,
                },
                None => available,
            },
    {
        match &self.runner {
            Some(rc) => match rc.num_runs {
                Some(n) => if n < available {
                    n
                } else {
                    available
                },
                None => available,
            },
            None => available,
        }
    }
}

} // verus!
