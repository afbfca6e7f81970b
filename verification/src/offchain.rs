//! The offchain capability boundary: the typed values the offchain
//! delegate speaks — timestamps, durations, storage kinds, request ids and
//! statuses — the capability set, the delegate interface, and the
//! capability-gated wrapper around it.

use vstd::prelude::*;

verus! {

/// A kind of offchain local storage.
#[derive(Clone, Copy, PartialEq, Eq, Structural, Debug)]
pub enum StorageKind {
    /// Persistent storage: not revertible and not fork-aware; a value set
    /// by a worker at one block stays visible to workers at other blocks.
    PERSISTENT,
    /// Local storage: revertible and fork-aware; a value set by a worker
    /// at a reverted block is reverted with it.
    LOCAL,
}

impl StorageKind {
    /// The kind's boundary code.
    pub open spec fn spec_code(&self) -> u32 {
        match self {
            StorageKind::PERSISTENT => 1,
            StorageKind::LOCAL => 2,
        }
    }

    /// The kind's boundary code: one for persistent, two for local.
    pub fn as_u32(&self) -> (r: u32)
        ensures
            r == self.spec_code(),
    {
        match self {
            StorageKind::PERSISTENT => 1,
            StorageKind::LOCAL => 2,
        }
    }

    /// Recover a kind from its boundary code; fails exactly on codes that
    /// name no kind.
    pub fn try_from(kind: u32) -> (r: Result<StorageKind, ()>)
        ensures
            kind == 1 ==> r == Ok::<StorageKind, ()>(StorageKind::PERSISTENT),
            kind == 2 ==> r == Ok::<StorageKind, ()>(StorageKind::LOCAL),
            kind != 1 && kind != 2 ==> r == Err::<StorageKind, ()>(()),
    {
        match kind {
            1 => Ok(StorageKind::PERSISTENT),
            2 => Ok(StorageKind::LOCAL),
            _ => Err(()),
        }
    }
}

/// Opaque id of an offchain http request.
#[derive(Clone, Copy, PartialEq, Eq, PartialOrd, Ord, Structural, Debug, Hash)]
pub struct HttpRequestId(pub u16);

impl HttpRequestId {
    /// The id widened to the boundary word.
    pub fn as_u32(&self) -> (r: u32)
        ensures
            r == self.0 as u32,
    {
        self.0 as u32
    }
}

/// An error returned by the body-carrying http methods.
#[derive(Clone, Copy, PartialEq, Eq, Structural, Debug)]
pub enum HttpError {
    /// The action could not be completed within the deadline.
    DeadlineReached,
    /// An I/O error happened; the request is destroyed.
    IoError,
    /// The request id is invalid in this context.
    Invalid,
}

impl HttpError {
    /// The error's boundary code.
    pub open spec fn spec_code(&self) -> u32 {
        match self {
            HttpError::DeadlineReached => 1,
            HttpError::IoError => 2,
            HttpError::Invalid => 3,
        }
    }

    /// The error's boundary code: deadline one, I/O two, invalid three.
    pub fn as_u32(&self) -> (r: u32)
        ensures
            r == self.spec_code(),
    {
        match self {
            HttpError::DeadlineReached => 1,
            HttpError::IoError => 2,
            HttpError::Invalid => 3,
        }
    }

    /// Recover an error from its boundary code; fails exactly on codes
    /// that name no error.
    pub fn try_from(error: u32) -> (r: Result<HttpError, ()>)
        ensures
            error == 1 ==> r == Ok::<HttpError, ()>(HttpError::DeadlineReached),
            error == 2 ==> r == Ok::<HttpError, ()>(HttpError::IoError),
            error == 3 ==> r == Ok::<HttpError, ()>(HttpError::Invalid),
            !(1 <= error <= 3) ==> r == Err::<HttpError, ()>(()),
    {
        match error {
            1 => Ok(HttpError::DeadlineReached),
            2 => Ok(HttpError::IoError),
            3 => Ok(HttpError::Invalid),
            _ => Err(()),
        }
    }
}

/// Status of an offchain http request.
#[derive(Clone, Copy, PartialEq, Eq, Structural, Debug)]
pub enum HttpRequestStatus {
    /// The deadline was reached while waiting; the caller controls the
    /// deadline, so the request itself has not necessarily timed out.
    DeadlineReached,
    /// An error occurred; the request is destroyed and its id invalid.
    IoError,
    /// The id is invalid in this context.
    Invalid,
    /// The request finished with this http status code.
    Finished(u16),
}

impl HttpRequestStatus {
    /// The status's boundary code: zero invalid, ten deadline, twenty I/O
    /// error, and a finished request's own http code.
    pub open spec fn spec_code(&self) -> u32 {
        match self {
            HttpRequestStatus::Invalid => 0,
            HttpRequestStatus::DeadlineReached => 10,
            HttpRequestStatus::IoError => 20,
            HttpRequestStatus::Finished(code) => *code as u32,
        }
    }

    /// The status's boundary code.
    pub fn as_u32(&self) -> (r: u32)
        ensures
            r == self.spec_code(),
    {
        match self {
            HttpRequestStatus::Invalid => 0,
            HttpRequestStatus::DeadlineReached => 10,
            HttpRequestStatus::IoError => 20,
            HttpRequestStatus::Finished(code) => *code as u32,
        }
    }

    /// Recover a status from its boundary code; a finished request's code
    /// must lie in the http range, one hundred through nine hundred
    /// ninety-nine; every other code names no status.
    pub fn try_from(status: u32) -> (r: Result<HttpRequestStatus, ()>)
        ensures
            status == 0 ==> r == Ok::<HttpRequestStatus, ()>(HttpRequestStatus::Invalid),
            status == 10 ==> r == Ok::<HttpRequestStatus, ()>(HttpRequestStatus::DeadlineReached),
            status == 20 ==> r == Ok::<HttpRequestStatus, ()>(HttpRequestStatus::IoError),
            100 <= status <= 999 ==> r == Ok::<HttpRequestStatus, ()>(
                HttpRequestStatus::Finished(status as u16),
            ),
            !(status == 0 || status == 10 || status == 20 || 100 <= status <= 999) ==> r == Err::<
                HttpRequestStatus,
                (),
            >(()),
    {
        if status == 0 {
            Ok(HttpRequestStatus::Invalid)
        } else if status == 10 {
            Ok(HttpRequestStatus::DeadlineReached)
        } else if 100 <= status && status <= 999 {
            Ok(HttpRequestStatus::Finished(status as u16))
        } else if status == 20 {
            Ok(HttpRequestStatus::IoError)
        } else {
            Err(())
        }
    }
}

/// Law: the boundary code determines the status — two statuses whose
/// finished codes lie in the http range and that encode to the same code
/// are the same status, so decoding the encoded code yields the status
/// back.
pub proof fn lemma_http_status_code_injective(s1: HttpRequestStatus, s2: HttpRequestStatus)
    requires
        s1 matches HttpRequestStatus::Finished(code) ==> 100 <= code <= 999,
        s2 matches HttpRequestStatus::Finished(code) ==> 100 <= code <= 999,
        s1.spec_code() == s2.spec_code(),
    ensures
        s1 == s2,
{
}

/// Simple blob holding a peer id without committing to its format.
#[derive(Clone, PartialEq, Eq, Debug)]
pub struct OpaquePeerId(pub Vec<u8>);

impl OpaquePeerId {
    /// Create a new opaque peer id.
    pub fn new(vec: Vec<u8>) -> (r: Self)
        ensures
            r.0 == vec,
    {
        OpaquePeerId(vec)
    }
}

/// Simple blob holding a network address without committing to its format.
#[derive(Clone, PartialEq, Eq, Debug)]
pub struct OpaqueMultiaddr(pub Vec<u8>);

impl OpaqueMultiaddr {
    /// Create a new opaque address.
    pub fn new(vec: Vec<u8>) -> (r: Self)
        ensures
            r.0 == vec,
    {
        OpaqueMultiaddr(vec)
    }
}

/// A blob holding the local node's network state without committing to its
/// format.
#[derive(Clone, PartialEq, Eq, Debug)]
pub struct OpaqueNetworkState {
    /// The peer id of the local node.
    pub peer_id: OpaquePeerId,
    /// The addresses the node knows it can be reached at.
    pub external_addresses: Vec<OpaqueMultiaddr>,
}

/// Opaque timestamp: milliseconds since the UNIX epoch.
#[derive(Clone, Copy, PartialEq, Eq, Ord, PartialOrd, Structural, Debug)]
pub struct Timestamp(u64);

/// A duration in milliseconds.
#[derive(Clone, Copy, PartialEq, Eq, Ord, PartialOrd, Structural, Debug)]
pub struct Duration(u64);

impl Duration {
    /// The duration's length in milliseconds.
    pub closed spec fn spec_millis(&self) -> u64 {
        self.0
    }

    /// Create a duration of the given number of milliseconds.
    pub fn from_millis(millis: u64) -> (r: Self)
        ensures
            r.spec_millis() == millis,
    {
        Duration(millis)
    }

    /// The number of milliseconds this duration represents.
    pub fn millis(&self) -> (r: u64)
        ensures
            r == self.spec_millis(),
    {
        self.0
    }
}

impl Timestamp {
    /// The timestamp's milliseconds since the UNIX epoch.
    pub closed spec fn spec_millis(&self) -> u64 {
        self.0
    }

    /// Create a timestamp from a UNIX timestamp in milliseconds.
    pub fn from_unix_millis(millis: u64) -> (r: Self)
        ensures
            r.spec_millis() == millis,
    {
        Timestamp(millis)
    }

    /// Increase the timestamp by the duration, saturating at the top.
    pub fn add(&self, duration: Duration) -> (r: Timestamp)
        ensures
            r.spec_millis() == if self.spec_millis() + duration.spec_millis() <= u64::MAX {
                self.spec_millis() + duration.spec_millis()
            } else {
                u64::MAX as int
            },
    {
        Timestamp(self.0.saturating_add(duration.0))
    }

    /// Decrease the timestamp by the duration, saturating at zero.
    pub fn sub(&self, duration: Duration) -> (r: Timestamp)
        ensures
            r.spec_millis() == if self.spec_millis() >= duration.spec_millis() {
                self.spec_millis() - duration.spec_millis()
            } else {
                0int
            },
    {
        Timestamp(self.0.saturating_sub(duration.0))
    }

    /// The difference of two timestamps as a duration, saturating at zero.
    pub fn diff(&self, other: &Self) -> (r: Duration)
        ensures
            r.spec_millis() == if self.spec_millis() >= other.spec_millis() {
                self.spec_millis() - other.spec_millis()
            } else {
                0int
            },
    {
        Duration(self.0.saturating_sub(other.0))
    }

    /// The number of milliseconds since the UNIX epoch.
    pub fn unix_millis(&self) -> (r: u64)
        ensures
            r == self.spec_millis(),
    {
        self.0
    }
}

/// An extra capability of an offchain execution context.
#[derive(Debug, PartialEq, Eq, Structural, Clone, Copy)]
pub enum Capability {
    /// Access to the transaction pool.
    TransactionPool,
    /// External http calls.
    Http,
    /// Keystore access.
    Keystore,
    /// A randomness source.
    Randomness,
    /// Access to the opaque network state.
    NetworkState,
    /// Reads of the offchain worker database.
    OffchainWorkerDbRead,
    /// Writes to the offchain worker database.
    OffchainWorkerDbWrite,
}

impl Capability {
    /// The capability's bit in a capability set.
    pub open spec fn spec_mask(&self) -> u8 {
        match self {
            Capability::TransactionPool => 1,
            Capability::Http => 2,
            Capability::Keystore => 4,
            Capability::Randomness => 8,
            Capability::NetworkState => 16,
            Capability::OffchainWorkerDbRead => 32,
            Capability::OffchainWorkerDbWrite => 64,
        }
    }

    /// The capability's bit in a capability set.
    pub fn mask(&self) -> (r: u8)
        ensures
            r == self.spec_mask(),
    {
        match self {
            Capability::TransactionPool => 1,
            Capability::Http => 2,
            Capability::Keystore => 4,
            Capability::Randomness => 8,
            Capability::NetworkState => 16,
            Capability::OffchainWorkerDbRead => 32,
            Capability::OffchainWorkerDbWrite => 64,
        }
    }
}

/// A set of capabilities, as a bit set.
#[derive(Debug, PartialEq, Eq, Structural, Clone, Copy)]
pub struct Capabilities(u8);

impl Capabilities {
    /// The set's bits.
    pub closed spec fn spec_bits(&self) -> u8 {
        self.0
    }

    /// Whether the set holds `capability`.
    pub open spec fn spec_has(&self, capability: Capability) -> bool {
        self.spec_bits() & capability.spec_mask() != 0
    }

    /// The empty set of capabilities.
    pub fn none() -> (r: Self)
        ensures
            r.spec_bits() == 0,
            forall|c: Capability| !r.spec_has(c),
    {
        let r = Capabilities(0);
        proof {
            assert forall|c: Capability| !r.spec_has(c) by {
                let m = c.spec_mask();
                assert(0u8 & m == 0) by (bit_vector);
            }
        }
        r
    }

    /// The set of all capabilities.
    pub fn all() -> (r: Self)
        ensures
            r.spec_bits() == 255,
            forall|c: Capability| r.spec_has(c),
    {
        let r = Capabilities(255);
        proof {
            assert forall|c: Capability| r.spec_has(c) by {
                let m = c.spec_mask();
                assert(m == 1 || m == 2 || m == 4 || m == 8 || m == 16 || m == 32 || m == 64);
                assert(255u8 & 1 != 0 && 255u8 & 2 != 0 && 255u8 & 4 != 0 && 255u8 & 8 != 0
                    && 255u8 & 16 != 0 && 255u8 & 32 != 0 && 255u8 & 64 != 0) by (bit_vector);
            }
        }
        r
    }

    /// The capabilities of rich offchain calls: they may sign and submit
    /// transactions and read — but not write — the offchain worker
    /// database.
    pub fn rich_offchain_call() -> (r: Self)
        ensures
            r.spec_has(Capability::TransactionPool),
            r.spec_has(Capability::Keystore),
            r.spec_has(Capability::OffchainWorkerDbRead),
            !r.spec_has(Capability::OffchainWorkerDbWrite),
            !r.spec_has(Capability::Http),
            !r.spec_has(Capability::Randomness),
            !r.spec_has(Capability::NetworkState),
    {
        let r = Capabilities(37);
        proof {
            assert(37u8 & 1 != 0 && 37u8 & 4 != 0 && 37u8 & 32 != 0 && 37u8 & 64 == 0 && 37u8 & 2
                == 0 && 37u8 & 8 == 0 && 37u8 & 16 == 0) by (bit_vector);
        }
        r
    }

    /// Build a set from a list of capabilities: exactly their union.
    pub fn from_list(list: &[Capability]) -> (r: Self)
        ensures
            forall|c: Capability|
                r.spec_has(c) == exists|i: int|
                    0 <= i < list@.len() && (#[trigger] list@[i]) == c,
    {
        let n = list.len();
        let mut bits: u8 = 0;
        proof {
            assert forall|c: Capability| !(0u8 & c.spec_mask() != 0) by {
                let m = c.spec_mask();
                assert(0u8 & m == 0) by (bit_vector);
            }
        }
        let mut i: usize = 0;
        while i < n
            invariant
                n == list@.len(),
                i <= n,
                forall|c: Capability|
                    (bits & c.spec_mask() != 0) == exists|k: int|
                        0 <= k < i && (#[trigger] list@[k]) == c,
            decreases n - i,
        {
            let cap = *vstd::slice::slice_index_get(list, i);
            let ghost old_bits = bits;
            bits = bits | cap.mask();
            proof {
                assert forall|c: Capability| (bits & c.spec_mask() != 0) == (exists|k: int|
                    0 <= k < i + 1 && (#[trigger] list@[k]) == c) by {
                    let m = c.spec_mask();
                    let cm = cap.spec_mask();
                    assert((old_bits | cm) & m != 0 <==> (old_bits & m != 0 || cm & m != 0))
                        by (bit_vector);
                    lemma_masks_injective(cap, c);
                    if old_bits & m != 0 {
                        let k = choose|k: int| 0 <= k < i && (#[trigger] list@[k]) == c;
                        assert(0 <= k < i + 1 && list@[k] == c);
                    }
                    if cm & m != 0 {
                        assert(list@[i as int] == c);
                    }
                }
            }
            i = i + 1;
        }
        Capabilities(bits)
    }

    /// Check whether a particular capability is in the set.
    pub fn has(&self, capability: Capability) -> (r: bool)
        ensures
            r == self.spec_has(capability),
    {
        self.0 & capability.mask() != 0
    }

    /// Whether this set holds all capabilities.
    pub fn has_all(&self) -> (r: bool)
        ensures
            r == (self.spec_bits() == 255),
    {
        self.0 == 255
    }
}

/// Two capabilities share a mask bit only when they are the same.
proof fn lemma_masks_injective(a: Capability, b: Capability)
    ensures
        (a.spec_mask() & b.spec_mask() != 0) == (a == b),
{
    let ma = a.spec_mask();
    let mb = b.spec_mask();
    if a == b {
        assert(ma == 1 || ma == 2 || ma == 4 || ma == 8 || ma == 16 || ma == 32 || ma == 64);
        assert((ma == 1 || ma == 2 || ma == 4 || ma == 8 || ma == 16 || ma == 32 || ma == 64)
            ==> ma & ma != 0) by (bit_vector);
    } else {
        assert((ma == 1 || ma == 2 || ma == 4 || ma == 8 || ma == 16 || ma == 32 || ma == 64) && (
        mb == 1 || mb == 2 || mb == 4 || mb == 8 || mb == 16 || mb == 32 || mb == 64) && ma != mb
            ==> ma & mb == 0) by (bit_vector);
    }
}

/// The extended externalities an offchain worker runs against: the
/// capability-gated delegate providing timestamps, randomness, local
/// key-value storage and the http request/response state machine.
///
/// Implementations carry a capability specification: the `allows` spec
/// says which capabilities an implementation grants, each operation
/// demands its capability, and every caller must show the needed
/// capability is granted — a forbidden access is a verification error
/// instead of a runtime abort.
pub trait Externalities: Sized {
    /// Which capabilities this implementation grants.
    spec fn allows(&self, capability: Capability) -> bool;

    /// Whether the local node is a potential validator. Even when true, no
    /// keys need be configured nor the validator registered.
    fn is_validator(&self) -> bool
        requires
            self.allows(Capability::Keystore),
    ;

    /// Submit a transaction to the pool, to be propagated to others.
    fn submit_transaction(&mut self, extrinsic: Vec<u8>) -> Result<(), ()>
        requires
            old(self).allows(Capability::TransactionPool),
    ;

    /// Information about the local node's network state.
    fn network_state(&self) -> Result<OpaqueNetworkState, ()>
        requires
            self.allows(Capability::NetworkState),
    ;

    /// The current UNIX timestamp, in milliseconds.
    fn timestamp(&mut self) -> Timestamp
        requires
            old(self).allows(Capability::Http),
    ;

    /// Pause execution until the deadline is reached.
    fn sleep_until(&mut self, deadline: Timestamp)
        requires
            old(self).allows(Capability::Http),
    ;

    /// A truly random, non-deterministic seed from the host environment.
    fn random_seed(&mut self) -> [u8; 32]
        requires
            old(self).allows(Capability::Randomness),
    ;

    /// Set a value in offchain local storage. This storage is not part of
    /// consensus; it persists between runs on the same machine.
    fn local_storage_set(&mut self, kind: StorageKind, key: &[u8], value: &[u8])
        requires
            old(self).allows(Capability::OffchainWorkerDbWrite),
    ;

    /// Set a value in offchain local storage if it currently equals
    /// `old_value`; concurrent workers coordinate through this. Returns
    /// whether the value was set.
    fn local_storage_compare_and_set(
        &mut self,
        kind: StorageKind,
        key: &[u8],
        old_value: Option<&[u8]>,
        new_value: &[u8],
    ) -> bool
        requires
            old(self).allows(Capability::OffchainWorkerDbWrite),
    ;

    /// Get a value from offchain local storage; `None` when unset.
    fn local_storage_get(&mut self, kind: StorageKind, key: &[u8]) -> Option<Vec<u8>>
        requires
            old(self).allows(Capability::OffchainWorkerDbRead),
    ;

    /// Start an http request with the given verb and URL; fails when no
    /// request id can be allocated or the method or URI is invalid.
    fn http_request_start(&mut self, method: &str, uri: &str, meta: &[u8]) -> Result<
        HttpRequestId,
        (),
    >
        requires
            old(self).allows(Capability::Http),
    ;

    /// Append a header to the request; repeated names keep appending.
    /// Fails on an invalid id, after the body was written, or on invalid
    /// characters; a failure does not poison the request.
    fn http_request_add_header(
        &mut self,
        request_id: HttpRequestId,
        name: &str,
        value: &str,
    ) -> Result<(), ()>
        requires
            old(self).allows(Capability::Http),
    ;

    /// Write a chunk of the request body; an empty chunk finalizes and
    /// always starts the request. Fails on an invalid id, after waiting
    /// began, on a reached deadline, or on an I/O error — which destroys
    /// the request. No deadline blocks forever.
    fn http_request_write_body(
        &mut self,
        request_id: HttpRequestId,
        chunk: &[u8],
        deadline: Option<Timestamp>,
    ) -> Result<(), HttpError>
        requires
            old(self).allows(Capability::Http),
    ;

    /// Block until the given requests respond or the deadline is reached;
    /// one status per id, in order. A response that reports an I/O error
    /// is destroyed and its id invalid. No deadline blocks forever.
    fn http_response_wait(
        &mut self,
        ids: &[HttpRequestId],
        deadline: Option<Timestamp>,
    ) -> (r: Vec<HttpRequestStatus>)
        requires
            old(self).allows(Capability::Http),
        ensures
            r@.len() == ids@.len(),
    ;

    /// All response headers, as name and value pairs. Dispatches the
    /// request if not yet done; the headers and body can no longer be
    /// modified. Empty on an unknown, unresponded or finished id.
    fn http_response_headers(&mut self, request_id: HttpRequestId) -> Vec<(Vec<u8>, Vec<u8>)>
        requires
            old(self).allows(Capability::Http),
    ;

    /// Read a chunk of the response body into `buffer`, returning the
    /// number of bytes written. Dispatches the request if not yet done. A
    /// zero read or an I/O error destroys the request. Fails on an invalid
    /// id, a reached deadline, or an I/O error. No deadline blocks
    /// forever.
    fn http_response_read_body(
        &mut self,
        request_id: HttpRequestId,
        buffer: &mut Vec<u8>,
        deadline: Option<Timestamp>,
    ) -> Result<usize, HttpError>
        requires
            old(self).allows(Capability::Http),
    ;
}

/// An externalities wrapper limited to a fixed set of capabilities: it
/// grants exactly the capabilities of its set that its inner delegate also
/// grants, and forwards each operation unchanged.
pub struct LimitedExternalities<T> {
    capabilities: Capabilities,
    externalities: T,
}

impl<T> LimitedExternalities<T> {
    /// The capability set this wrapper enforces.
    pub closed spec fn spec_capabilities(&self) -> Capabilities {
        self.capabilities
    }

    /// The wrapped delegate.
    pub closed spec fn spec_inner(&self) -> &T {
        &self.externalities
    }

    /// Create new externalities limited to the given capabilities.
    pub fn new(capabilities: Capabilities, externalities: T) -> (r: Self)
        ensures
            r.spec_capabilities() == capabilities,
            r.spec_inner() == &externalities,
    {
        Self { capabilities, externalities }
    }

    /// Whether the given capability is in the wrapper's set. An operation
    /// whose capability is missing is forbidden: its precondition can
    /// never be met.
    pub fn check(&self, capability: Capability) -> (r: bool)
        ensures
            r == self.spec_capabilities().spec_has(capability),
    {
        self.capabilities.has(capability)
    }
}

impl<T: Externalities> Externalities for LimitedExternalities<T> {
    open spec fn allows(&self, capability: Capability) -> bool {
        self.spec_capabilities().spec_has(capability) && self.spec_inner().allows(capability)
    }

    fn is_validator(&self) -> bool {
        self.externalities.is_validator()
    }

    fn submit_transaction(&mut self, extrinsic: Vec<u8>) -> Result<(), ()> {
        self.externalities.submit_transaction(extrinsic)
    }

    fn network_state(&self) -> Result<OpaqueNetworkState, ()> {
        self.externalities.network_state()
    }

    fn timestamp(&mut self) -> Timestamp {
        self.externalities.timestamp()
    }

    fn sleep_until(&mut self, deadline: Timestamp) {
        self.externalities.sleep_until(deadline)
    }

    fn random_seed(&mut self) -> [u8; 32] {
        self.externalities.random_seed()
    }

    fn local_storage_set(&mut self, kind: StorageKind, key: &[u8], value: &[u8]) {
        self.externalities.local_storage_set(kind, key, value)
    }

    fn local_storage_compare_and_set(
        &mut self,
        kind: StorageKind,
        key: &[u8],
        old_value: Option<&[u8]>,
        new_value: &[u8],
    ) -> bool {
        self.externalities.local_storage_compare_and_set(kind, key, old_value, new_value)
    }

    fn local_storage_get(&mut self, kind: StorageKind, key: &[u8]) -> Option<Vec<u8>> {
        self.externalities.local_storage_get(kind, key)
    }

    fn http_request_start(&mut self, method: &str, uri: &str, meta: &[u8]) -> Result<
        HttpRequestId,
        (),
    > {
        self.externalities.http_request_start(method, uri, meta)
    }

    fn http_request_add_header(
        &mut self,
        request_id: HttpRequestId,
        name: &str,
        value: &str,
    ) -> Result<(), ()> {
        self.externalities.http_request_add_header(request_id, name, value)
    }

    fn http_request_write_body(
        &mut self,
        request_id: HttpRequestId,
        chunk: &[u8],
        deadline: Option<Timestamp>,
    ) -> Result<(), HttpError> {
        self.externalities.http_request_write_body(request_id, chunk, deadline)
    }

    fn http_response_wait(
        &mut self,
        ids: &[HttpRequestId],
        deadline: Option<Timestamp>,
    ) -> (r: Vec<HttpRequestStatus>) {
        self.externalities.http_response_wait(ids, deadline)
    }

    fn http_response_headers(&mut self, request_id: HttpRequestId) -> Vec<(Vec<u8>, Vec<u8>)> {
        self.externalities.http_response_headers(request_id)
    }

    fn http_response_read_body(
        &mut self,
        request_id: HttpRequestId,
        buffer: &mut Vec<u8>,
        deadline: Option<Timestamp>,
    ) -> Result<usize, HttpError> {
        self.externalities.http_response_read_body(request_id, buffer, deadline)
    }
}

} // verus!
