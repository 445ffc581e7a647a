//! Direct hardware access, each operation of which needs a token for exactly
//! that operation.

use vstd::prelude::*;

use crate::hal::error::HalError;
use crate::hal::memory::{PhysAddr, VirtAddr};

verus! {

/// The most bytes that a signature can have.
pub const MAX_SIGNATURE_BYTES: usize = 64;

/// What a token authorizes.
#[derive(Debug, Clone, Copy, PartialEq, Eq, Structural)]
pub enum CapabilityScope {
    /// Mapping one range of device registers.
    MmioRegion { phys_base: u64, size: u64 },
    /// Reading one performance counter.
    PerformanceCounter { counter_id: u32 },
    /// Pinning a thread to one core.
    ThreadAffinity { core_id: u32 },
    /// Choosing a memory placement policy.
    NumaPolicy,
}

/// A signed, expiring credential for one operation.
#[derive(Debug, Clone, Copy)]
pub struct CapabilityToken {
    /// Whom the token was issued to.
    pub subject_id: u64,
    pub scope: CapabilityScope,
    /// The time from which on the token is no longer valid.
    pub expires_at_ns: u64,
    pub signature: [u8; MAX_SIGNATURE_BYTES],
    /// How many bytes of `signature` are in use.
    pub signature_len: u8,
    pub _reserved: [u8; 7],
}

impl CapabilityToken {
    /// The signature is within its array.
    pub open spec fn well_formed(self) -> bool {
        self.signature_len <= MAX_SIGNATURE_BYTES
    }

    /// The signature's bytes.
    pub open spec fn signed_with(self) -> Seq<u8> {
        self.signature@.take(self.signature_len as int)
    }

    /// A token without a signature.
    pub fn new(subject_id: u64, scope: CapabilityScope, expires_at_ns: u64) -> (r: Self)
        ensures
            r.well_formed(),
            r.subject_id == subject_id,
            r.scope == scope,
            r.expires_at_ns == expires_at_ns,
            r.signed_with() == Seq::<u8>::empty(),
            r._reserved == [0u8; 7usize],
            forall|i: int| 0 <= i < MAX_SIGNATURE_BYTES ==> #[trigger] r.signature@[i] == 0,
    {
        CapabilityToken {
            subject_id,
            scope,
            expires_at_ns,
            signature: [0; 64],
            signature_len: 0,
            _reserved: [0; 7],
        }
    }

    /// The token with the given signature.
    pub fn with_signature(self, signature: &[u8]) -> (r: Self)
        requires
            signature.len() <= MAX_SIGNATURE_BYTES,
        ensures
            r.well_formed(),
            r.subject_id == self.subject_id,
            r.scope == self.scope,
            r.expires_at_ns == self.expires_at_ns,
            r._reserved == self._reserved,
            r.signed_with() == signature@,
            forall|i: int|
                signature@.len() <= i < MAX_SIGNATURE_BYTES ==> #[trigger] r.signature@[i]
                    == self.signature@[i],
    {
        let mut token = self;
        let mut i: usize = 0;
        while i < signature.len()
            invariant
                i <= signature@.len() <= MAX_SIGNATURE_BYTES,
                token.subject_id == self.subject_id,
                token.scope == self.scope,
                token.expires_at_ns == self.expires_at_ns,
                token._reserved == self._reserved,
                forall|j: int| 0 <= j < i ==> #[trigger] token.signature@[j] == signature@[j],
                forall|j: int|
                    i <= j < MAX_SIGNATURE_BYTES ==> #[trigger] token.signature@[j]
                        == self.signature@[j],
            decreases signature@.len() - i,
        {
            token.signature[i] = signature[i];
            i = i + 1;
        }
        token.signature_len = signature.len() as u8;
        assert(token.signed_with() =~= signature@);
        token
    }

    /// The signature's bytes.
    pub fn signature_bytes(&self) -> (r: &[u8])
        requires
            self.well_formed(),
        ensures
            r@ == self.signed_with(),
    {
        vstd::slice::slice_subrange(self.signature.as_slice(), 0, self.signature_len as usize)
    }

    /// Whether the token authorizes exactly the requested operation.
    pub fn covers(&self, requested: CapabilityScope) -> (r: bool)
        ensures
            r == (self.scope == requested),
    {
        self.scope == requested
    }

    /// Whether the token is no longer valid at `now_ns`.
    pub fn is_expired(&self, now_ns: u64) -> (r: bool)
        ensures
            r == (now_ns >= self.expires_at_ns),
    {
        now_ns >= self.expires_at_ns
    }
}

/// Whoever can tell whether a token was really issued.
pub trait TokenVerifier {
    /// Checks the token's signature over its other fields.
    fn verify_signature(&self, token: &CapabilityToken) -> Result<(), HalError>;
}

/// The token is for this operation and has not expired.
pub open spec fn admissible(token: CapabilityToken, required: CapabilityScope, now_ns: u64) -> bool {
    token.scope == required && now_ns < token.expires_at_ns
}

/// What becomes of a request whose token has the given signature verdict.
pub open spec fn outcome(
    token: CapabilityToken,
    required: CapabilityScope,
    now_ns: u64,
    signature: Result<(), HalError>,
) -> Result<(), HalError> {
    if admissible(token, required, now_ns) {
        signature
    } else {
        Err(HalError::InvalidCapabilityToken)
    }
}

/// Decides a request whose token has the given signature verdict.
pub fn token_outcome(
    token: &CapabilityToken,
    required: CapabilityScope,
    now_ns: u64,
    signature: Result<(), HalError>,
) -> (r: Result<(), HalError>)
    ensures
        r == outcome(*token, required, now_ns, signature),
{
    if !token.covers(required) {
        return Err(HalError::InvalidCapabilityToken);
    }
    if token.is_expired(now_ns) {
        return Err(HalError::InvalidCapabilityToken);
    }
    signature
}

/// `verdict` is how a request may be decided: the verifier is asked only about
/// an admissible token.
pub open spec fn decided<V: TokenVerifier>(
    verifier: &V,
    token: CapabilityToken,
    required: CapabilityScope,
    now_ns: u64,
    verdict: Result<(), HalError>,
) -> bool {
    if admissible(token, required, now_ns) {
        call_ensures(V::verify_signature, (verifier, &token), verdict)
    } else {
        verdict == Err::<(), HalError>(HalError::InvalidCapabilityToken)
    }
}

/// Decides a request: the token must be for exactly this operation, must not
/// have expired, and must be signed.
pub fn verify_token<V: TokenVerifier>(
    verifier: &V,
    token: &CapabilityToken,
    required_scope: CapabilityScope,
    now_ns: u64,
) -> (r: Result<(), HalError>)
    requires
        call_requires(V::verify_signature, (verifier, token)),
    ensures
        decided(verifier, *token, required_scope, now_ns, r),
{
    if !token.covers(required_scope) || token.is_expired(now_ns) {
        return Err(HalError::InvalidCapabilityToken);
    }
    let signature = verifier.verify_signature(token);
    token_outcome(token, required_scope, now_ns, signature)
}

/// A token for another operation, or one that has expired, authorizes nothing,
/// whatever the verifier would say of it.
pub proof fn inadmissible_token_is_refused<V: TokenVerifier>(
    verifier: &V,
    token: CapabilityToken,
    required: CapabilityScope,
    now_ns: u64,
    verdict: Result<(), HalError>,
)
    requires
        decided(verifier, token, required, now_ns, verdict),
        token.scope != required || now_ns >= token.expires_at_ns,
    ensures
        verdict == Err::<(), HalError>(HalError::InvalidCapabilityToken),
{
}

/// A token authorizes at most one operation: one that was granted for some scope
/// is refused for every other, at any time.
pub proof fn token_authorizes_one_scope<V: TokenVerifier>(
    verifier: &V,
    token: CapabilityToken,
    granted: CapabilityScope,
    other: CapabilityScope,
    now_ns: u64,
    later_ns: u64,
    verdict: Result<(), HalError>,
)
    requires
        decided(verifier, token, granted, now_ns, Ok(())),
        other != granted,
        decided(verifier, token, other, later_ns, verdict),
    ensures
        verdict == Err::<(), HalError>(HalError::InvalidCapabilityToken),
{
}

/// A hardware performance counter.
#[derive(Debug, Clone, Copy, PartialEq, Eq, Structural)]
pub struct PerfCounterId(pub u32);

/// Where a thread's memory is to be placed.
#[derive(Debug, Clone, Copy, PartialEq, Eq, Structural)]
pub enum NumaPolicy {
    /// On the node that the thread runs on.
    Local,
    /// On all nodes in turn.
    Interleaved,
    /// On one node if it has memory left.
    Preferred(u8),
    /// On one node or not at all.
    Strict(u8),
}

/// The scope that mapping a range of device registers needs.
pub open spec fn mmio_scope(phys: PhysAddr, size: usize) -> CapabilityScope {
    CapabilityScope::MmioRegion { phys_base: phys.0 as u64, size: size as u64 }
}

/// The scope that pinning a thread to a core needs.
pub open spec fn affinity_scope(core_id: usize) -> CapabilityScope {
    CapabilityScope::ThreadAffinity { core_id: core_id as u32 }
}

/// The scope that reading a counter needs.
pub open spec fn counter_scope(counter: PerfCounterId) -> CapabilityScope {
    CapabilityScope::PerformanceCounter { counter_id: counter.0 }
}

/// Decides a request to map the registers at `phys`.
pub fn authorize_mmio<V: TokenVerifier>(
    verifier: &V,
    token: &CapabilityToken,
    phys: PhysAddr,
    size: usize,
    now_ns: u64,
) -> (r: Result<(), HalError>)
    requires
        call_requires(V::verify_signature, (verifier, token)),
    ensures
        decided(verifier, *token, mmio_scope(phys, size), now_ns, r),
{
    verify_token(
        verifier,
        token,
        CapabilityScope::MmioRegion { phys_base: phys.as_usize() as u64, size: size as u64 },
        now_ns,
    )
}

/// Decides a request to read a counter.
pub fn authorize_counter<V: TokenVerifier>(
    verifier: &V,
    token: &CapabilityToken,
    counter: PerfCounterId,
    now_ns: u64,
) -> (r: Result<(), HalError>)
    requires
        call_requires(V::verify_signature, (verifier, token)),
    ensures
        decided(verifier, *token, counter_scope(counter), now_ns, r),
{
    verify_token(
        verifier,
        token,
        CapabilityScope::PerformanceCounter { counter_id: counter.0 },
        now_ns,
    )
}

/// Decides a request to pin a thread to a core.
pub fn authorize_affinity<V: TokenVerifier>(
    verifier: &V,
    token: &CapabilityToken,
    core_id: usize,
    now_ns: u64,
) -> (r: Result<(), HalError>)
    requires
        call_requires(V::verify_signature, (verifier, token)),
    ensures
        decided(verifier, *token, affinity_scope(core_id), now_ns, r),
{
    verify_token(
        verifier,
        token,
        CapabilityScope::ThreadAffinity { core_id: core_id as u32 },
        now_ns,
    )
}

/// Decides a request to choose a placement policy; any policy can be chosen.
pub fn authorize_numa_policy<V: TokenVerifier>(
    verifier: &V,
    token: &CapabilityToken,
    policy: NumaPolicy,
    now_ns: u64,
) -> (r: Result<(), HalError>)
    requires
        call_requires(V::verify_signature, (verifier, token)),
    ensures
        decided(verifier, *token, CapabilityScope::NumaPolicy, now_ns, r),
{
    verify_token(verifier, token, CapabilityScope::NumaPolicy, now_ns)
}

/// What each architecture's direct access must offer.
pub trait HalDirectAccess {
    /// Maps the device registers at `phys` and returns where.
    fn map_mmio_region(&self, token: CapabilityToken, phys: PhysAddr, size: usize) -> Result<
        VirtAddr,
        HalError,
    >;

    /// The value of a performance counter.
    fn read_performance_counter(&self, token: CapabilityToken, counter: PerfCounterId) -> Result<
        u64,
        HalError,
    >;

    /// Allows the calling thread to be pinned to a core.
    fn pin_thread_to_core(&self, token: CapabilityToken, core_id: usize) -> Result<(), HalError>;

    /// Allows the calling thread to choose a placement policy.
    fn set_numa_policy(&self, token: CapabilityToken, policy: NumaPolicy) -> Result<(), HalError>;
}

} // verus!
