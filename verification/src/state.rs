use vstd::prelude::*;
use crate::config::Config;
use crate::plans::PriceMap;
use crate::rate_limit::InMemoryRateLimiter;

verus! {

/// What the handlers share besides the clients: the settings, the price
/// table and the two limiters.
pub struct AppState {
    pub config: Config,
    pub price_map: PriceMap,
    pub preflight_test_limiter: InMemoryRateLimiter,
    pub api_limiter: InMemoryRateLimiter,
}

impl AppState {
    /// The state at start: the price table of the settings, and the two
    /// limiters without entries.
    pub fn new(config: Config) -> (state: AppState)
        ensures
            state.config == config,
            state.price_map@ == PriceMap::from_config_spec(config),
            state.preflight_test_limiter.window_ms() == 900_000,
            state.preflight_test_limiter.max_requests() == 5,
            state.api_limiter.window_ms() == 900_000,
            state.api_limiter.max_requests() == 100,
            forall|key: Seq<char>|
                state.preflight_test_limiter.bucket(key) == Seq::<u64>::empty()
                    && state.api_limiter.bucket(key) == Seq::<u64>::empty(),
    {
        let price_map = PriceMap::from_config(&config);
        AppState {
            config,
            price_map,
            preflight_test_limiter: InMemoryRateLimiter::for_preflight_test(),
            api_limiter: InMemoryRateLimiter::for_api(),
        }
    }
}

/// How a job fared in the queue for the toolchain.
#[derive(Debug, Clone, Copy, PartialEq)]
pub struct QueueTiming {
    pub wait_ms: u128,
    pub run_ms: u128,
    /// How many jobs run once this one is done.
    pub running: usize,
}

/// What is noted of a job, where the settings ask for it: how long it
/// waited and ran, and how many of the permits are taken now.
pub fn queue_timing(config: &Config, wait_ms: u128, run_ms: u128, available_permits: usize) -> (timing:
    Option<QueueTiming>)
    ensures
        timing == if config.log_task_queue_timings {
            Some(
                QueueTiming {
                    wait_ms,
                    run_ms,
                    running: if config.ghostscript_concurrency >= available_permits {
                        (config.ghostscript_concurrency - available_permits) as usize
                    } else {
                        0
                    },
                },
            )
        } else {
            None
        },
{
    if !config.log_task_queue_timings {
        return None;
    }
    let running = if config.ghostscript_concurrency >= available_permits {
        config.ghostscript_concurrency - available_permits
    } else {
        0
    };
    Some(QueueTiming { wait_ms, run_ms, running })
}

} // verus!
