//! The configuration that the workers share: made once from the arguments,
//! checked, and never changed.

use vstd::prelude::*;
use crate::args::{LoadTesterArgs, LoadTesterJobArgs, Mode};
use crate::chunk::{needs_multipart, walk_advances};
use crate::span::TimeSpan;

verus! {

/// What every worker of a run goes by.
#[derive(Clone, Copy, Debug, PartialEq, Eq, Structural)]
pub struct RunConfig {
    /// The number of bytes in every object.
    pub object_size: usize,
    /// The number of distinct keys that the workers cycle through.
    pub step: usize,
    /// The cap on the operations of the whole pool, if there is one.
    pub count: Option<usize>,
    /// A payload longer than this goes up in parts.
    pub multipart_threshold: usize,
    /// A tail shorter than this is no part of its own: the chunker merges it
    /// into the part before it.
    pub minimum_part_size: usize,
    /// Whether the workers read or write.
    pub mode: Mode,
    /// The number of workers.
    pub thread_count: usize,
    /// The cap on each worker's running time, if there is one.
    pub duration: Option<TimeSpan>,
    /// Whether progress is reported while the workers run.
    pub progress_enabled: bool,
}

/// Why arguments make no configuration.
#[derive(Clone, Copy, Debug, PartialEq, Eq, Structural)]
pub enum ConfigError {
    /// A size or a count is beyond what this machine can address, or the
    /// bytes of the whole run are beyond what a 64-bit counter holds.
    TooLarge,
    /// With no key to cycle through there is nothing to address.
    ZeroStep,
    /// A zero threshold on a payload of at least the minimum part size: the
    /// chunker would never advance.
    ZeroThreshold,
}

impl RunConfig {
    /// Whether the workers can go by the configuration: there is a key, every
    /// key's payload window fits in one buffer, and the chunker advances on
    /// the payloads that go up in parts.
    pub open spec fn valid(&self) -> bool {
        &&& self.step > 0
        &&& self.object_size + self.step <= usize::MAX
        &&& self.chunkable()
        &&& self.progress_enabled ==> self.total_bytes() <= u64::MAX
    }

    /// Whether the chunker advances on the payloads that go up in parts.
    pub open spec fn chunkable(&self) -> bool {
        needs_multipart(self.object_size, self.multipart_threshold) ==> walk_advances(
            self.object_size,
            self.multipart_threshold,
            self.minimum_part_size,
        )
    }

    /// The bytes that a run moves in all, where the number of operations is
    /// capped; zero where it is not.
    pub open spec fn total_bytes(&self) -> nat {
        match self.count {
            Some(count) => (count * self.object_size) as nat,
            None => 0,
        }
    }

    /// The configuration that the arguments stand for, before it is checked.
    pub open spec fn of_args(load: LoadTesterArgs, job: LoadTesterJobArgs) -> RunConfig {
        RunConfig {
            object_size: load.size as usize,
            step: load.step as usize,
            count: match load.count {
                Some(count) => Some(count as usize),
                None => None,
            },
            multipart_threshold: load.multipart_threshold as usize,
            minimum_part_size: 5_000_000,
            mode: job.mode,
            thread_count: job.threads_max,
            duration: job.duration,
            progress_enabled: !job.no_progress_bar,
        }
    }

    /// Whether every number of the arguments can be held on this machine.
    pub open spec fn fits(load: LoadTesterArgs, job: LoadTesterJobArgs) -> bool {
        &&& load.size + load.step <= usize::MAX
        &&& load.multipart_threshold <= usize::MAX
        &&& 5_000_000 <= usize::MAX
        &&& load.count matches Some(count) ==> {
            &&& count <= usize::MAX
            &&& !job.no_progress_bar ==> count * load.size <= u64::MAX
        }
    }

    /// What `from_args` returns: the configuration, or the first reason why
    /// there is none.
    pub open spec fn checked(load: LoadTesterArgs, job: LoadTesterJobArgs) -> Result<
        RunConfig,
        ConfigError,
    > {
        if !Self::fits(load, job) {
            Err(ConfigError::TooLarge)
        } else if load.step == 0 {
            Err(ConfigError::ZeroStep)
        } else if load.multipart_threshold == 0 && load.size >= 5_000_000 {
            Err(ConfigError::ZeroThreshold)
        } else {
            Ok(Self::of_args(load, job))
        }
    }

    /// Makes the configuration of a run from its arguments, with the smallest
    /// part size that the storage backend takes, and checks it.
    pub fn from_args(load: &LoadTesterArgs, job: &LoadTesterJobArgs) -> (config: Result<
        RunConfig,
        ConfigError,
    >)
        ensures
            config == Self::checked(*load, *job),
            config matches Ok(c) ==> c.valid(),
    {
        let minimum = LoadTesterArgs::minimal_multipart_threshold();
        let limit = usize::MAX as u64;
        if load.size > limit || load.step > limit - load.size || load.multipart_threshold > limit
            || minimum > limit {
            return Err(ConfigError::TooLarge);
        }
        let count = match load.count {
            Some(count) => {
                if count > limit {
                    return Err(ConfigError::TooLarge);
                }
                if !job.no_progress_bar && count.checked_mul(load.size).is_none() {
                    return Err(ConfigError::TooLarge);
                }
                Some(count as usize)
            },
            None => None,
        };
        if load.step == 0 {
            return Err(ConfigError::ZeroStep);
        }
        if load.multipart_threshold == 0 && load.size >= minimum {
            return Err(ConfigError::ZeroThreshold);
        }
        Ok(
            RunConfig {
                object_size: load.size as usize,
                step: load.step as usize,
                count,
                multipart_threshold: load.multipart_threshold as usize,
                minimum_part_size: minimum as usize,
                mode: job.mode,
                thread_count: job.threads_max,
                duration: job.duration,
                progress_enabled: !job.no_progress_bar,
            },
        )
    }

    /// Whether the workers can go by the configuration.
    pub fn is_valid(&self) -> (valid: bool)
        ensures
            valid == self.valid(),
    {
        if self.step == 0 || self.object_size > usize::MAX - self.step {
            return false;
        }
        if self.object_size > self.multipart_threshold && self.multipart_threshold == 0
            && self.object_size >= self.minimum_part_size {
            return false;
        }
        if self.progress_enabled {
            match self.count {
                Some(count) => {
                    let total = (count as u64).checked_mul(self.object_size as u64);
                    total.is_some()
                },
                None => true,
            }
        } else {
            true
        }
    }
}

} // verus!
