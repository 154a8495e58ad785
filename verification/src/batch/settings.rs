//! How a batch is handled, as the environment asks for it.
//!
//! The values of the environment variables are read elsewhere; `None` stands for a variable that is
//! not set or is not Unicode.

use vstd::prelude::*;

use crate::text::parse_usize;
use crate::text::same_text;
use crate::text::usize_of_text;

verus! {

/// The most worker threads that can be asked for.
pub const MAX_CONFIGURED_WORKERS: usize = 1024;

/// The number of worker threads where neither the environment nor the machine says.
pub const FALLBACK_PARALLELISM: usize = 8;

/// The fewest worker threads where the environment does not say how many.
pub const MIN_DEFAULT_WORKERS: usize = 2;

/// The most worker threads where the environment does not say how many.
pub const MAX_DEFAULT_WORKERS: usize = 64;

/// What the environment asks for, at one moment.
#[derive(Debug, Clone, Copy)]
pub struct BatchSettings {
    /// Requests of one RSA key are handled in parallel.
    pub parallel_rsa: bool,
    /// The length of the output of an RSA key is read from the key beforehand.
    pub fixed_output_len: bool,
    /// What is handled in parallel goes to the worker pool.
    pub worker_pool: bool,
}

/// Whether a text switches something on.
pub open spec fn is_on(text: Seq<char>) -> bool {
    ||| text == "1"@
    ||| text == "true"@
    ||| text == "TRUE"@
    ||| text == "yes"@
    ||| text == "YES"@
    ||| text == "on"@
    ||| text == "ON"@
}

/// Whether a variable switches something on.
pub open spec fn switched_on(value: Option<&str>) -> bool {
    value matches Some(text) && is_on(text@)
}

fn is_switched_on(value: Option<&str>) -> (on: bool)
    ensures
        on == switched_on(value),
{
    match value {
        Some(text) => {
            same_text(text, "1") || same_text(text, "true") || same_text(text, "TRUE")
                || same_text(text, "yes") || same_text(text, "YES") || same_text(text, "on")
                || same_text(text, "ON")
        },
        None => false,
    }
}

/// Whether the worker pool is to be used. `value` is `COSMIAN_HSM_BATCH_WORKER_POOL`.
pub fn hsm_batch_worker_pool_enabled(value: Option<&str>) -> (enabled: bool)
    ensures
        enabled == switched_on(value),
{
    is_switched_on(value)
}

/// Whether RSA requests are to be handled in parallel. `value` is
/// `COSMIAN_HSM_BATCH_PARALLEL_RSA`, and where that is missing `general`, which is
/// `COSMIAN_HSM_BATCH_PARALLEL`, counts.
pub fn hsm_batch_parallel_rsa_enabled(value: Option<&str>, general: Option<&str>) -> (enabled: bool)
    ensures
        enabled == switched_on(
            if value is Some {
                value
            } else {
                general
            },
        ),
{
    match value {
        Some(_) => is_switched_on(value),
        None => is_switched_on(general),
    }
}

/// Whether the length of RSA outputs is to be read from the key. `value` is
/// `COSMIAN_HSM_RSA_FIXED_OUTPUT_LEN`.
pub fn hsm_batch_rsa_fixed_output_len_enabled(value: Option<&str>) -> (enabled: bool)
    ensures
        enabled == switched_on(value),
{
    is_switched_on(value)
}

/// The number of workers that a variable asks for, where it does and the number is allowed.
pub open spec fn configured_workers(value: Option<&str>) -> Option<usize> {
    match value {
        Some(text) => match usize_of_text(text@) {
            Some(n) => if 1 <= n <= MAX_CONFIGURED_WORKERS {
                Some(n)
            } else {
                None
            },
            None => None,
        },
        None => None,
    }
}

/// The number of workers where no variable asks for any.
pub open spec fn default_workers(parallelism: Option<usize>) -> usize {
    let n = match parallelism {
        Some(n) => n,
        None => FALLBACK_PARALLELISM,
    };
    if n < MIN_DEFAULT_WORKERS {
        MIN_DEFAULT_WORKERS
    } else if n > MAX_DEFAULT_WORKERS {
        MAX_DEFAULT_WORKERS
    } else {
        n
    }
}

/// The number of workers of the pool.
pub open spec fn workers(value: Option<&str>, parallelism: Option<usize>) -> usize {
    match configured_workers(value) {
        Some(n) => n,
        None => default_workers(parallelism),
    }
}

/// The number of workers of the pool. `value` is `COSMIAN_HSM_BATCH_WORKERS`, and `parallelism` is
/// what the machine offers, where that is known.
pub fn configured_hsm_batch_workers(value: Option<&str>, parallelism: Option<usize>) -> (count:
    usize)
    ensures
        count == workers(value, parallelism),
        1 <= count <= MAX_CONFIGURED_WORKERS,
        configured_workers(value) is None ==> MIN_DEFAULT_WORKERS <= count <= MAX_DEFAULT_WORKERS,
{
    if let Some(text) = value {
        if let Some(n) = parse_usize(text) {
            if 1 <= n && n <= MAX_CONFIGURED_WORKERS {
                return n;
            }
        }
    }
    let n: usize = match parallelism {
        Some(n) => n,
        None => FALLBACK_PARALLELISM,
    };
    if n < MIN_DEFAULT_WORKERS {
        MIN_DEFAULT_WORKERS
    } else if n > MAX_DEFAULT_WORKERS {
        MAX_DEFAULT_WORKERS
    } else {
        n
    }
}

/// Seven texts switch something on, letter for letter, and nothing else does, nor does a variable
/// that is missing.
pub proof fn law_switches(value: Option<&str>)
    ensures
        switched_on(value) <==> match value {
            Some(text) => {
                ||| text@ == "1"@
                ||| text@ == "true"@
                ||| text@ == "TRUE"@
                ||| text@ == "yes"@
                ||| text@ == "YES"@
                ||| text@ == "on"@
                ||| text@ == "ON"@
            },
            None => false,
        },
{
}

/// A number from 1 to 1024 that is asked for is taken. Else there are as many workers as the machine
/// can run at once, where that is known, and else 8, but no fewer than 2 and no more than 64.
pub proof fn law_workers(value: Option<&str>, parallelism: Option<usize>)
    ensures
        ({
            let asked = match value {
                Some(text) => usize_of_text(text@),
                None => None,
            };
            let offered = match parallelism {
                Some(n) => n as int,
                None => 8,
            };
            let count = workers(value, parallelism);
            if asked matches Some(n) && 1 <= n <= 1024 {
                count == asked->0
            } else {
                &&& 2 <= count <= 64
                &&& 2 <= offered <= 64 ==> count == offered
                &&& offered < 2 ==> count == 2
                &&& offered > 64 ==> count == 64
            }
        }),
{
}

} // verus!
