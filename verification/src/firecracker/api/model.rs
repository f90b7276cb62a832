//! Data model of the hypervisor's HTTP API: instance information, boot
//! sources, drives, rate limiters and instance actions.

use vstd::prelude::*;

verus! {

/// Error body returned by the API server.
#[derive(Clone, Debug, PartialEq, Eq)]
pub struct Error {
    /// A description of the error condition
    pub fault_message: String,
}

/// Describes microVM instance information.
#[derive(Clone, Debug, PartialEq, Eq)]
pub struct InstanceInfo {
    /// Application name.
    pub app_name: String,
    /// MicroVM / instance ID.
    pub id: String,
    /// The current detailed state (Not started, Running, Paused) of the
    /// instance. This value is read-only for the control-plane.
    pub state: InstanceState,
    /// MicroVM hypervisor build version.
    pub vmm_version: String,
}

/// Instance state, as part of the [`InstanceInfo`] response.
#[derive(Copy, Clone, Debug, PartialEq, Eq)]
pub enum InstanceState {
    NotStarted,
    Running,
    Paused,
}

/// Variant wrapper containing the real action.
/// Used for the `/actions` endpoint.
#[derive(Clone, Debug, PartialEq, Eq)]
pub struct InstanceActionInfo {
    pub action_type: ActionType,
}

/// Enumeration indicating what type of action is contained in the payload
#[derive(Copy, Clone, Debug, PartialEq, Eq)]
pub enum ActionType {
    FlushMetrics,
    InstanceStart,
    SendCtrlAltDel,
}

/// Mathematical view of an [`InstanceInfo`]: its text fields as
/// character sequences.
#[verifier::ext_equal]
pub struct InstanceInfoView {
    pub app_name: Seq<char>,
    pub id: Seq<char>,
    pub state: InstanceState,
    pub vmm_version: Seq<char>,
}

impl View for InstanceInfo {
    type V = InstanceInfoView;

    open spec fn view(&self) -> InstanceInfoView {
        InstanceInfoView {
            app_name: self.app_name@,
            id: self.id@,
            state: self.state,
            vmm_version: self.vmm_version@,
        }
    }
}

/// Boot source descriptor.
#[derive(Clone, Debug, PartialEq, Eq)]
pub struct BootSource {
    /// Kernel boot arguments
    pub boot_args: Option<String>,
    /// Host level path to the initrd image used to boot the guest
    pub initrd_path: Option<String>,
    /// Host level path to the kernel image used to boot the guest
    pub kernel_image_path: String,
}

/// Mathematical view of a [`BootSource`]: its text fields as character
/// sequences.
#[verifier::ext_equal]
pub struct BootSourceView {
    pub boot_args: Option<Seq<char>>,
    pub initrd_path: Option<Seq<char>>,
    pub kernel_image_path: Seq<char>,
}

impl View for BootSource {
    type V = BootSourceView;

    open spec fn view(&self) -> BootSourceView {
        BootSourceView {
            boot_args: match self.boot_args {
                Some(a) => Some(a@),
                None => None,
            },
            initrd_path: match self.initrd_path {
                Some(p) => Some(p@),
                None => None,
            },
            kernel_image_path: self.kernel_image_path@,
        }
    }
}

#[derive(Clone, Debug, PartialEq, Eq)]
pub struct Drive {
    pub drive_id: String,
    pub is_read_only: bool,
    pub is_root_device: bool,
    /// Represents the unique id of the boot partition of this device. It is
    /// optional and it will be taken into account only if the
    /// [`Self::is_root_device`] field is true.
    pub partuuid: Option<String>,
    pub path_on_host: String,
    pub rate_limiter: Option<RateLimiter>,
}

/// Defines an IO rate limiter with independent bytes/s and ops/s limits.
/// Limits are defined by configuring each of the _bandwidth_ and _ops_
/// token buckets.
#[derive(Clone, Debug, PartialEq, Eq)]
pub struct RateLimiter {
    /// Token bucket with bytes as tokens
    pub bandwidth: Option<TokenBucket>,
    /// Token bucket with operations as tokens
    pub ops: Option<TokenBucket>,
}

impl Default for RateLimiter {
    fn default() -> (r: RateLimiter)
        ensures
            r.bandwidth is None,
            r.ops is None,
    {
        RateLimiter { bandwidth: None, ops: None }
    }
}

/// Defines a token bucket with a maximum capacity (size), an initial burst
/// size (one_time_burst) and an interval for refilling purposes
/// (refill_time). The refill rate is derived from size and refill_time, and
/// it is the constant rate at which the tokens replenish. The refill
/// process only starts happening after the initial burst budget is
/// consumed. Consumption from the token bucket is unbounded in speed which
/// allows for bursts bound in size by the amount of tokens available. Once
/// the token bucket is empty, consumption speed is bound by the
/// refill rate.
#[derive(Clone, Debug, PartialEq, Eq)]
pub struct TokenBucket {
    /// The initial size of a token bucket.
    pub one_time_burst: Option<u64>,
    /// The amount of milliseconds it takes for the bucket to refill.
    pub refill_time: u64,
    /// The total number of tokens this bucket can hold.
    pub size: u64,
}

/// The configured one-time burst budget, or none.
pub open spec fn spec_initial_burst(t: TokenBucket) -> u64 {
    match t.one_time_burst {
        Some(b) => b,
        None => 0,
    }
}

impl TokenBucket {
    /// The derived refill rate: how many tokens replenish per
    /// millisecond once the initial burst budget is consumed.
    pub fn refill_rate(&self) -> (r: u64)
        requires
            self.refill_time > 0,
        ensures
            r == self.size / self.refill_time,
    {
        self.size / self.refill_time
    }

    /// The bucket's starting state: the full capacity of tokens, plus
    /// the one-time burst budget when one is configured.
    pub fn initial_state(&self) -> (st: TokenBucketState)
        ensures
            st.burst_remaining == spec_initial_burst(*self),
            st.tokens == self.size,
    {
        let burst_remaining = match self.one_time_burst {
            Some(b) => b,
            None => 0,
        };
        TokenBucketState { burst_remaining, tokens: self.size }
    }
}

/// Runtime state of a token bucket: what is left of the one-time burst
/// budget, and the tokens currently in the bucket.
#[derive(Copy, Clone, Debug, PartialEq, Eq, Structural)]
pub struct TokenBucketState {
    pub burst_remaining: u64,
    pub tokens: u64,
}

/// What consuming `amount` tokens does to the state: the burst budget is
/// drained first, then the bucket; the demand is granted whenever the
/// two together cover it — consumption is unbounded in speed, bounded
/// only in size by the available tokens.
pub open spec fn spec_try_consume(st: TokenBucketState, amount: u64) -> Option<TokenBucketState> {
    if amount <= st.burst_remaining {
        Some(
            TokenBucketState {
                burst_remaining: (st.burst_remaining - amount) as u64,
                tokens: st.tokens,
            },
        )
    } else if amount - st.burst_remaining <= st.tokens {
        Some(
            TokenBucketState {
                burst_remaining: 0,
                tokens: (st.tokens - (amount - st.burst_remaining)) as u64,
            },
        )
    } else {
        None
    }
}

/// Consumes `amount` tokens, if the burst budget and the bucket together
/// cover it.
pub fn try_consume(st: TokenBucketState, amount: u64) -> (r: Option<TokenBucketState>)
    ensures
        r == spec_try_consume(st, amount),
{
    if amount <= st.burst_remaining {
        Some(
            TokenBucketState { burst_remaining: st.burst_remaining - amount, tokens: st.tokens },
        )
    } else {
        let rest = amount - st.burst_remaining;
        if rest <= st.tokens {
            Some(TokenBucketState { burst_remaining: 0, tokens: st.tokens - rest })
        } else {
            None
        }
    }
}

/// What `elapsed_ms` milliseconds of replenishment do to the state:
/// nothing while burst budget remains; afterwards the tokens grow at the
/// derived refill rate, capped at the bucket's capacity.
pub open spec fn spec_refill(t: TokenBucket, st: TokenBucketState, elapsed_ms: u64) -> (
    TokenBucketState
)
    recommends
        t.refill_time > 0,
{
    if st.burst_remaining > 0 {
        st
    } else if st.tokens + (t.size / t.refill_time) * elapsed_ms >= t.size {
        TokenBucketState { burst_remaining: 0, tokens: t.size }
    } else {
        TokenBucketState {
            burst_remaining: 0,
            tokens: (st.tokens + (t.size / t.refill_time) * elapsed_ms) as u64,
        }
    }
}

/// Replenishes the bucket for `elapsed_ms` milliseconds.
pub fn refill(bucket: &TokenBucket, st: TokenBucketState, elapsed_ms: u64) -> (r: TokenBucketState)
    requires
        bucket.refill_time > 0,
        st.tokens <= bucket.size,
    ensures
        r == spec_refill(*bucket, st, elapsed_ms),
{
    if st.burst_remaining > 0 {
        return st;
    }
    let rate = bucket.size / bucket.refill_time;
    match rate.checked_mul(elapsed_ms) {
        Some(gain) => {
            if gain >= bucket.size - st.tokens {
                TokenBucketState { burst_remaining: 0, tokens: bucket.size }
            } else {
                TokenBucketState { burst_remaining: 0, tokens: st.tokens + gain }
            }
        },
        None => TokenBucketState { burst_remaining: 0, tokens: bucket.size },
    }
}

/// Before the one-time burst budget is consumed, consumption is not
/// rate-limited: a demand within the remaining burst is granted whatever
/// the bucket's size or refill time — the state alone decides, and the
/// bucket's tokens are not even touched.
pub proof fn lemma_burst_consumption_not_rate_limited(st: TokenBucketState, amount: u64)
    requires
        amount <= st.burst_remaining,
    ensures
        spec_try_consume(st, amount) matches Some(n) && n.tokens == st.tokens
            && n.burst_remaining == st.burst_remaining - amount,
{
}

/// The refill process only starts once the burst budget is consumed:
/// while any of it remains, elapsed time replenishes nothing.
pub proof fn lemma_no_refill_before_burst_consumed(
    t: TokenBucket,
    st: TokenBucketState,
    elapsed_ms: u64,
)
    requires
        st.burst_remaining > 0,
    ensures
        spec_refill(t, st, elapsed_ms) == st,
{
}

} // verus!
