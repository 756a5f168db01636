use vstd::prelude::*;

verus! {

/// Reconnect and timeout settings of an SSE transport; durations are in
/// milliseconds.
#[derive(Debug, Clone)]
pub struct SseConfig {
    pub initial_retry_interval: u64,
    pub max_retry_interval: u64,
    pub connection_timeout: u64,
    pub exponential_backoff: bool,
    /// `None` retries without end.
    pub max_retries: Option<usize>,
    pub shutdown_timeout: u64,
}

impl Default for SseConfig {
    fn default() -> (r: Self)
        ensures
            r.initial_retry_interval == 1000,
            r.max_retry_interval == 30000,
            r.connection_timeout == 10000,
            r.exponential_backoff,
            r.max_retries is None,
            r.shutdown_timeout == 5000,
    {
        SseConfig {
            initial_retry_interval: 1000,
            max_retry_interval: 30000,
            connection_timeout: 10000,
            exponential_backoff: true,
            max_retries: None,
            shutdown_timeout: 5000,
        }
    }
}

/// Two to the power `k`.
pub open spec fn doubling(k: nat) -> nat
    decreases k,
{
    if k == 0 {
        1
    } else {
        2 * doubling((k - 1) as nat)
    }
}

/// The exponent of the backoff: the retry count, but never above ten.
pub open spec fn backoff_exponent(retry_count: nat) -> nat {
    if retry_count < 10 {
        retry_count
    } else {
        10
    }
}

/// The wait before retry number `retry_count`: the initial interval when
/// backoff is off; else the initial interval times two to the capped exponent,
/// but not above the maximum interval.
pub open spec fn retry_delay(config: SseConfig, retry_count: nat) -> int {
    if !config.exponential_backoff {
        config.initial_retry_interval as int
    } else {
        let d = config.initial_retry_interval * doubling(backoff_exponent(retry_count));
        if d < config.max_retry_interval {
            d
        } else {
            config.max_retry_interval as int
        }
    }
}

proof fn lemma_doubling_grows(a: nat, b: nat)
    requires
        a <= b,
    ensures
        1 <= doubling(a) <= doubling(b),
    decreases b,
{
    if b > a {
        lemma_doubling_grows(a, (b - 1) as nat);
    } else if a > 0 {
        lemma_doubling_grows((a - 1) as nat, (a - 1) as nat);
    }
}

pub fn calculate_retry_delay(config: &SseConfig, retry_count: usize) -> (r: u64)
    ensures
        r == retry_delay(*config, retry_count as nat),
{
    if !config.exponential_backoff {
        return config.initial_retry_interval;
    }
    let exponent: usize = if retry_count < 10 {
        retry_count
    } else {
        10
    };
    let mut factor: u64 = 1;
    let mut i: usize = 0;
    while i < exponent
        invariant
            i <= exponent <= 10,
            factor == doubling(i as nat),
            factor <= 1024,
        decreases exponent - i,
    {
        proof {
            lemma_doubling_grows(i as nat, 9);
            reveal_with_fuel(doubling, 10);
            assert(doubling(9) == 512);
        }
        factor = factor * 2;
        i = i + 1;
    }
    let base: u128 = config.initial_retry_interval as u128;
    let scale: u128 = factor as u128;
    assert(base * scale <= 0x1_0000_0000_0000_0000 * 1024) by (nonlinear_arith)
        requires
            base < 0x1_0000_0000_0000_0000,
            scale <= 1024,
    ;
    let delay: u128 = base * scale;
    if delay < config.max_retry_interval as u128 {
        delay as u64
    } else {
        config.max_retry_interval
    }
}

/// With exponential backoff the wait never shrinks from one retry to the next,
/// and once it has reached the maximum interval it stays there.
pub proof fn lemma_backoff_monotone(config: SseConfig, n: nat, m: nat)
    requires
        config.exponential_backoff,
        n <= m,
    ensures
        retry_delay(config, n) <= retry_delay(config, m),
        retry_delay(config, n) == config.max_retry_interval ==> retry_delay(config, m)
            == config.max_retry_interval,
        retry_delay(config, n) <= config.max_retry_interval,
{
    lemma_doubling_grows(backoff_exponent(n), backoff_exponent(m));
    let a = config.initial_retry_interval as int;
    let dn = doubling(backoff_exponent(n)) as int;
    let dm = doubling(backoff_exponent(m)) as int;
    assert(a * dn <= a * dm) by (nonlinear_arith)
        requires
            0 <= a,
            dn <= dm,
    ;
}

/// Without exponential backoff every retry waits the initial interval.
pub proof fn lemma_backoff_constant(config: SseConfig, n: nat)
    requires
        !config.exponential_backoff,
    ensures
        retry_delay(config, n) == config.initial_retry_interval,
{
}

} // verus!
