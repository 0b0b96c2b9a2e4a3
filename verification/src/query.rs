//! The batched variable-length query protocol.
//!
//! A query is an ordered batch of tagged sub-requests, each carrying zero or
//! more text buffers with an offered capacity. The whole batch is submitted
//! in one call to the system introspection service; the service answers with
//! a status and, per buffer, either the bytes that fit or the length that
//! would have sufficed. `apply_reply` is the decision step of the retry loop:
//! it commits every answer that fit, regrows exactly the undersized buffers
//! to the reported size, and says whether to resubmit, stop, or fail. The
//! unverified shell performs the actual call and drives the loop; every
//! decision it takes comes from here.

use vstd::prelude::*;
use vstd::pervasive::unreached;
use crate::errors::RtError;

verus! {

/// How many resubmissions a query tolerates before giving up with
/// `RtError::DidNotConverge`.
pub const RETRY_BOUND: u32 = 16;

/// One variable-length text field: the text committed so far and the
/// capacity currently offered to the service.
pub struct TextBuf {
    pub content: String,
    pub cap: usize,
}

impl TextBuf {
    /// A fresh field: no content, zero offered capacity.
    pub fn new() -> (r: TextBuf)
        ensures
            r.content@ == Seq::<char>::empty(),
            r.cap == 0,
    {
        TextBuf { content: String::new(), cap: 0 }
    }
}

/// The service's answer for one text field: the decoded text when it fit the
/// offered capacity, or the length that would have sufficed when it did not
/// (in which case the buffer was left unwritten).
pub enum FieldReply {
    Fitted(String),
    Undersized(usize),
}

/// The field state after one round: a fitted answer commits its text and
/// keeps the capacity; an undersized answer keeps the old content and grows
/// the capacity to exactly the reported requirement.
pub open spec fn field_after(f: TextBuf, r: FieldReply) -> TextBuf {
    match r {
        FieldReply::Fitted(s) => TextBuf { content: s, cap: f.cap },
        FieldReply::Undersized(n) => TextBuf {
            content: f.content,
            cap: if n > f.cap {
                n
            } else {
                f.cap
            },
        },
    }
}

/// A field forces a resubmission exactly when its answer was undersized.
pub open spec fn field_dirty(r: FieldReply) -> bool {
    r is Undersized
}

/// Applies one field answer; the new state is exactly `field_after`.
fn apply_field(f: &TextBuf, r: &FieldReply) -> (res: (TextBuf, bool))
    ensures
        res.0 == field_after(*f, *r),
        res.1 == field_dirty(*r),
{
    match r {
        FieldReply::Fitted(s) => (TextBuf { content: s.clone(), cap: f.cap }, false),
        FieldReply::Undersized(n) => {
            let cap = if *n > f.cap {
                *n
            } else {
                f.cap
            };
            (TextBuf { content: f.content.clone(), cap }, true)
        },
    }
}

/// One tagged sub-request of a batch, holding its output fields: fixed-size
/// numeric facts, and text buffers for the variable-length ones.
pub enum SubRequest {
    KernelVendor { vendor: TextBuf, major: u32, minor: u32 },
    OsVersion { vendor: TextBuf, major: u32, minor: u32 },
    ComputerName { hostname: TextBuf, label: TextBuf, display: TextBuf },
    ArchInfo { arch_type: u32, arch_version: u32 },
}

/// The service's answer for one sub-request, tagged like the request it
/// answers; numeric fields arrive as values, text fields as `FieldReply`s.
pub enum SlotReply {
    KernelVendor { vendor: FieldReply, major: u32, minor: u32 },
    OsVersion { vendor: FieldReply, major: u32, minor: u32 },
    ComputerName { hostname: FieldReply, label: FieldReply, display: FieldReply },
    ArchInfo { arch_type: u32, arch_version: u32 },
}

/// The batched call's status: fully satisfied, satisfied except for
/// undersized buffers, or a hard error carrying the raw status code.
pub enum QueryStatus {
    Satisfied,
    InsufficientLength,
    Failed(i64),
}

/// One answer of the introspection service to a submitted batch.
pub struct QueryReply {
    pub status: QueryStatus,
    pub slots: Vec<SlotReply>,
}

/// A reply slot answers a request slot exactly when it carries the same tag.
pub open spec fn slot_matches(s: SubRequest, r: SlotReply) -> bool {
    match s {
        SubRequest::KernelVendor { .. } => r is KernelVendor,
        SubRequest::OsVersion { .. } => r is OsVersion,
        SubRequest::ComputerName { .. } => r is ComputerName,
        SubRequest::ArchInfo { .. } => r is ArchInfo,
    }
}

/// The slot state after one round: every field advanced by `field_after`,
/// every numeric fact overwritten with the answered value.
pub open spec fn slot_after(s: SubRequest, r: SlotReply) -> SubRequest {
    match (s, r) {
        (
            SubRequest::KernelVendor { vendor, .. },
            SlotReply::KernelVendor { vendor: rv, major, minor },
        ) => SubRequest::KernelVendor { vendor: field_after(vendor, rv), major, minor },
        (
            SubRequest::OsVersion { vendor, .. },
            SlotReply::OsVersion { vendor: rv, major, minor },
        ) => SubRequest::OsVersion { vendor: field_after(vendor, rv), major, minor },
        (
            SubRequest::ComputerName { hostname, label, display },
            SlotReply::ComputerName { hostname: rh, label: rl, display: rd },
        ) => SubRequest::ComputerName {
            hostname: field_after(hostname, rh),
            label: field_after(label, rl),
            display: field_after(display, rd),
        },
        (SubRequest::ArchInfo { .. }, SlotReply::ArchInfo { arch_type, arch_version }) => (
        SubRequest::ArchInfo { arch_type, arch_version }),
        _ => s,
    }
}

/// A slot forces a resubmission when any of its fields does.
pub open spec fn slot_dirty(s: SubRequest, r: SlotReply) -> bool {
    match r {
        SlotReply::KernelVendor { vendor, .. } => field_dirty(vendor),
        SlotReply::OsVersion { vendor, .. } => field_dirty(vendor),
        SlotReply::ComputerName { hostname, label, display } => field_dirty(hostname)
            || field_dirty(label) || field_dirty(display),
        SlotReply::ArchInfo { .. } => false,
    }
}

/// A reply answers a batch when it has one slot per sub-request, each with
/// the matching tag; indices are the only correlation between the two.
pub open spec fn reply_matches(b: Seq<SubRequest>, rs: Seq<SlotReply>) -> bool {
    rs.len() == b.len() && forall|i: int| 0 <= i < b.len() ==> slot_matches(b[i], rs[i])
}

/// The whole batch after one round, slot by slot.
pub open spec fn batch_after(b: Seq<SubRequest>, rs: Seq<SlotReply>) -> Seq<SubRequest> {
    Seq::new(b.len(), |i: int| slot_after(b[i], rs[i]))
}

/// The batch must be resubmitted when any slot is dirty.
pub open spec fn batch_dirty(b: Seq<SubRequest>, rs: Seq<SlotReply>) -> bool {
    exists|i: int| 0 <= i < b.len() && slot_dirty(b[i], rs[i])
}

/// Tests whether a reply slot carries the tag of a request slot.
fn slot_matches_exec(s: &SubRequest, r: &SlotReply) -> (res: bool)
    ensures
        res == slot_matches(*s, *r),
{
    match (s, r) {
        (SubRequest::KernelVendor { .. }, SlotReply::KernelVendor { .. }) => true,
        (SubRequest::OsVersion { .. }, SlotReply::OsVersion { .. }) => true,
        (SubRequest::ComputerName { .. }, SlotReply::ComputerName { .. }) => true,
        (SubRequest::ArchInfo { .. }, SlotReply::ArchInfo { .. }) => true,
        _ => false,
    }
}

/// Applies one slot answer; the new slot is exactly `slot_after`.
fn apply_slot(s: &SubRequest, r: &SlotReply) -> (res: (SubRequest, bool))
    requires
        slot_matches(*s, *r),
    ensures
        res.0 == slot_after(*s, *r),
        res.1 == slot_dirty(*s, *r),
{
    match (s, r) {
        (
            SubRequest::KernelVendor { vendor, .. },
            SlotReply::KernelVendor { vendor: rv, major, minor },
        ) => {
            let (f, d) = apply_field(vendor, rv);
            (SubRequest::KernelVendor { vendor: f, major: *major, minor: *minor }, d)
        },
        (
            SubRequest::OsVersion { vendor, .. },
            SlotReply::OsVersion { vendor: rv, major, minor },
        ) => {
            let (f, d) = apply_field(vendor, rv);
            (SubRequest::OsVersion { vendor: f, major: *major, minor: *minor }, d)
        },
        (
            SubRequest::ComputerName { hostname, label, display },
            SlotReply::ComputerName { hostname: rh, label: rl, display: rd },
        ) => {
            let (fh, dh) = apply_field(hostname, rh);
            let (fl, dl) = apply_field(label, rl);
            let (fd, dd) = apply_field(display, rd);
            (SubRequest::ComputerName { hostname: fh, label: fl, display: fd }, dh || dl || dd)
        },
        (SubRequest::ArchInfo { .. }, SlotReply::ArchInfo { arch_type, arch_version }) => (
        (SubRequest::ArchInfo { arch_type: *arch_type, arch_version: *arch_version }, false)),
        _ => unreached(),
    }
}

/// What the retry loop must do after a round: stop with every fact valid,
/// resubmit the regrown batch, or abort with the error to propagate.
pub enum Flow {
    Done,
    Retry,
    Fail(RtError),
}

/// A query in flight: the ordered batch of sub-requests — never reordered,
/// never dropped, so indices stay stable across retries — and the number of
/// resubmissions still allowed.
pub struct Query {
    pub slots: Vec<SubRequest>,
    pub retries_left: u32,
}

impl Query {
    /// A query over `slots` with the full retry budget.
    pub fn new(slots: Vec<SubRequest>) -> (r: Query)
        ensures
            r.slots == slots,
            r.retries_left == RETRY_BOUND,
    {
        Query { slots, retries_left: RETRY_BOUND }
    }

    /// The decision step of the retry loop. A hard status aborts at once
    /// with the propagated code and leaves the batch untouched; a reply that
    /// does not line up with the batch aborts likewise. Otherwise every slot
    /// advances by `slot_after` — fitted fields committed, undersized ones
    /// regrown — and the flow is `Done` exactly when nothing was undersized,
    /// `Retry` while the budget lasts, and a convergence failure beyond it.
    pub fn apply_reply(&mut self, reply: &QueryReply) -> (flow: Flow)
        ensures
            reply.status matches QueryStatus::Failed(c) ==> (flow matches Flow::Fail(e) && e == (
            RtError::Os { code: c }) && *final(self) == *old(self)),
            !(reply.status is Failed) && !reply_matches(old(self).slots@, reply.slots@) ==> (flow
                matches Flow::Fail(e) && e is Protocol && *final(self) == *old(self)),
            !(reply.status is Failed) && reply_matches(old(self).slots@, reply.slots@) ==> {
                &&& final(self).slots@ == batch_after(old(self).slots@, reply.slots@)
                &&& !batch_dirty(old(self).slots@, reply.slots@) ==> flow is Done
                    && final(self).retries_left == old(self).retries_left
                &&& batch_dirty(old(self).slots@, reply.slots@) && old(self).retries_left > 0
                    ==> flow is Retry && final(self).retries_left == old(self).retries_left - 1
                &&& batch_dirty(old(self).slots@, reply.slots@) && old(self).retries_left == 0
                    ==> (flow matches Flow::Fail(e) && e is DidNotConverge
                    && final(self).retries_left == 0)
            },
    {
        match &reply.status {
            QueryStatus::Failed(c) => {
                return Flow::Fail(RtError::Os { code: *c });
            },
            _ => {},
        }
        assert(!(reply.status is Failed));
        let n = self.slots.len();
        if reply.slots.len() != n {
            return Flow::Fail(RtError::Protocol);
        }
        let mut i: usize = 0;
        while i < n
            invariant
                !(reply.status is Failed),
                i <= n,
                n == self.slots@.len(),
                reply.slots@.len() == n,
                forall|j: int| 0 <= j < i ==> slot_matches(self.slots@[j], reply.slots@[j]),
            decreases n - i,
        {
            if !slot_matches_exec(&self.slots[i], &reply.slots[i]) {
                return Flow::Fail(RtError::Protocol);
            }
            i = i + 1;
        }
        let mut new_slots: Vec<SubRequest> = Vec::new();
        let mut dirty = false;
        let mut i: usize = 0;
        while i < n
            invariant
                !(reply.status is Failed),
                i <= n,
                n == self.slots@.len(),
                reply.slots@.len() == n,
                reply_matches(self.slots@, reply.slots@),
                new_slots@ =~= batch_after(self.slots@, reply.slots@).subrange(0, i as int),
                dirty == exists|j: int| 0 <= j < i && slot_dirty(self.slots@[j], reply.slots@[j]),
            decreases n - i,
        {
            let (s, d) = apply_slot(&self.slots[i], &reply.slots[i]);
            new_slots.push(s);
            proof {
                assert(new_slots@ =~= batch_after(self.slots@, reply.slots@).subrange(
                    0,
                    i + 1,
                ));
            }
            dirty = dirty || d;
            i = i + 1;
        }
        proof {
            assert(new_slots@ =~= batch_after(self.slots@, reply.slots@));
            assert(dirty == batch_dirty(self.slots@, reply.slots@));
        }
        self.slots = new_slots;
        if dirty {
            if self.retries_left == 0 {
                Flow::Fail(RtError::DidNotConverge)
            } else {
                self.retries_left = self.retries_left - 1;
                Flow::Retry
            }
        } else {
            Flow::Done
        }
    }
}

/// Every field of a reply slot fit the offered capacity.
pub open spec fn slot_all_fitted(r: SlotReply) -> bool {
    match r {
        SlotReply::KernelVendor { vendor, .. } => vendor is Fitted,
        SlotReply::OsVersion { vendor, .. } => vendor is Fitted,
        SlotReply::ComputerName { hostname, label, display } => hostname is Fitted && label
            is Fitted && display is Fitted,
        SlotReply::ArchInfo { .. } => true,
    }
}

/// Every field of the whole reply fit.
pub open spec fn reply_all_fitted(rs: Seq<SlotReply>) -> bool {
    forall|i: int| 0 <= i < rs.len() ==> slot_all_fitted(rs[i])
}

/// A reply with no shortfall leaves the batch clean: the loop stops after a
/// single round trip when the service reports success for every field.
pub proof fn lemma_all_fitted_not_dirty(b: Seq<SubRequest>, rs: Seq<SlotReply>)
    requires
        reply_matches(b, rs),
        reply_all_fitted(rs),
    ensures
        !batch_dirty(b, rs),
{
}

/// A buffer's capacity never shrinks across a round, and a shortfall grows
/// it to exactly the size last reported as required.
pub proof fn lemma_growth_monotonic(f: TextBuf, r: FieldReply)
    ensures
        field_after(f, r).cap >= f.cap,
        r matches FieldReply::Undersized(n) ==> (n > f.cap ==> field_after(f, r).cap == n),
        r is Fitted ==> field_after(f, r).cap == f.cap,
{
}

/// Committing a fitted answer is idempotent: resubmitting after a partial
/// shortfall rewrites the already-fit fields with the same text and leaves
/// them unchanged.
pub proof fn lemma_fitted_commit_idempotent(f: TextBuf, s: String)
    ensures
        field_after(field_after(f, FieldReply::Fitted(s)), FieldReply::Fitted(s)) == field_after(
            f,
            FieldReply::Fitted(s),
        ),
{
}

/// The capacities of the text fields of one slot, in field order.
pub open spec fn slot_caps(s: SubRequest) -> Seq<nat> {
    match s {
        SubRequest::KernelVendor { vendor, .. } => seq![vendor.cap as nat],
        SubRequest::OsVersion { vendor, .. } => seq![vendor.cap as nat],
        SubRequest::ComputerName { hostname, label, display } => seq![
            hostname.cap as nat,
            label.cap as nat,
            display.cap as nat,
        ],
        SubRequest::ArchInfo { .. } => Seq::empty(),
    }
}

/// Monotonic growth over the whole batch: a round never loses a slot, never
/// changes a slot's tag, and never shrinks any buffer capacity — so indices
/// keep correlating requests with answers across retries.
pub proof fn lemma_batch_growth_monotonic(b: Seq<SubRequest>, rs: Seq<SlotReply>)
    requires
        reply_matches(b, rs),
    ensures
        batch_after(b, rs).len() == b.len(),
        forall|i: int| 0 <= i < b.len() ==> slot_matches(#[trigger] batch_after(b, rs)[i], rs[i]),
        forall|i: int|
            0 <= i < b.len() ==> #[trigger] slot_caps(batch_after(b, rs)[i]).len() == slot_caps(
                b[i],
            ).len(),
        forall|i: int, j: int|
            0 <= i < b.len() && 0 <= j < slot_caps(b[i]).len() ==> #[trigger] slot_caps(
                batch_after(b, rs)[i],
            )[j] >= slot_caps(b[i])[j],
{
}

} // verus!
