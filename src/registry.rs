use vstd::prelude::*;

use crate::span::Span;

verus! {

/// What the work engine keeps of one attached backend: its identity and the
/// timing it runs with.
#[derive(Clone, Copy, Debug, PartialEq, Eq, Structural)]
pub struct Attachment {
    pub backend_id: u64,
    pub midstate_count: usize,
    pub hashrate_interval: Span,
    pub job_timeout: Span,
}

impl Attachment {
    /// At least one midstate, and both spans well formed and longer than zero.
    pub open spec fn valid(self) -> bool {
        &&& self.midstate_count >= 1
        &&& self.hashrate_interval.wf()
        &&& self.hashrate_interval.total_nanos() > 0
        &&& self.job_timeout.wf()
        &&& self.job_timeout.total_nanos() > 0
    }

    /// Whether the attachment is valid.
    pub fn is_valid(&self) -> (r: bool)
        ensures
            r == self.valid(),
    {
        self.midstate_count >= 1 && self.hashrate_interval.nanos < crate::span::NANOS_PER_SEC
            && !self.hashrate_interval.is_zero() && self.job_timeout.nanos < crate::span::NANOS_PER_SEC
            && !self.job_timeout.is_zero()
    }
}

/// Whether some attachment of `attached` has identity `backend_id`.
pub open spec fn holds_backend(attached: Seq<Attachment>, backend_id: u64) -> bool {
    exists|i: int| 0 <= i < attached.len() && #[trigger] attached[i].backend_id == backend_id
}

/// Every attachment valid, and no identity attached twice.
pub open spec fn attachments_wf(attached: Seq<Attachment>) -> bool {
    &&& forall|i: int| 0 <= i < attached.len() ==> #[trigger] attached[i].valid()
    &&& forall|i: int, j: int|
        0 <= i < j < attached.len() ==> #[trigger] attached[i].backend_id != #[trigger] attached[j].backend_id
}

/// Why an attachment was refused.
#[derive(Clone, Copy, Debug, PartialEq, Eq, Structural)]
pub enum RegisterError {
    /// The attachment's midstate count or spans are out of range.
    InvalidParams,
    /// A backend with the same identity is attached already.
    AlreadyAttached,
}

/// The backends attached to the work engine, in the order they came.
#[derive(Debug)]
pub struct BackendRegistry {
    attached: Vec<Attachment>,
}

impl View for BackendRegistry {
    type V = Seq<Attachment>;

    closed spec fn view(&self) -> Seq<Attachment> {
        self.attached@
    }
}

impl BackendRegistry {
    /// Every attachment valid, and no identity attached twice.
    pub open spec fn wf(&self) -> bool {
        attachments_wf(self@)
    }

    /// A registry with nothing attached.
    pub fn new() -> (r: BackendRegistry)
        ensures
            r.wf(),
            r@ == Seq::<Attachment>::empty(),
    {
        BackendRegistry { attached: Vec::new() }
    }

    /// The number of attached backends.
    pub fn len(&self) -> (r: usize)
        ensures
            r == self@.len(),
    {
        self.attached.len()
    }

    /// The attachment at position `i`, in order of arrival.
    pub fn get(&self, i: usize) -> (r: Option<Attachment>)
        ensures
            i < self@.len() ==> r == Some(self@[i as int]),
            i >= self@.len() ==> r is None,
    {
        if i < self.attached.len() {
            Some(self.attached[i])
        } else {
            None
        }
    }

    /// Whether a backend with identity `backend_id` is attached.
    pub fn is_attached(&self, backend_id: u64) -> (r: bool)
        ensures
            r == holds_backend(self@, backend_id),
    {
        let n = self.attached.len();
        let mut i: usize = 0;
        while i < n
            invariant
                n == self@.len(),
                self@ == self.attached@,
                i <= n,
                forall|k: int| 0 <= k < i ==> #[trigger] self@[k].backend_id != backend_id,
            decreases n - i,
        {
            if self.attached[i].backend_id == backend_id {
                return true;
            }
            i = i + 1;
        }
        false
    }

    /// Attaches a backend. A valid attachment whose identity is new is added at
    /// the end; otherwise the registry stays as it was.
    pub fn attach(&mut self, attachment: Attachment) -> (r: Result<(), RegisterError>)
        requires
            old(self).wf(),
        ensures
            final(self).wf(),
            r is Ok <==> attachment.valid() && !holds_backend(old(self)@, attachment.backend_id),
            r == Err::<(), RegisterError>(RegisterError::InvalidParams) <==> !attachment.valid(),
            r == Err::<(), RegisterError>(RegisterError::AlreadyAttached) <==> attachment.valid()
                && holds_backend(old(self)@, attachment.backend_id),
            r is Ok ==> final(self)@ == old(self)@.push(attachment),
            r is Err ==> final(self)@ == old(self)@,
    {
        if !attachment.is_valid() {
            return Err(RegisterError::InvalidParams);
        }
        if self.is_attached(attachment.backend_id) {
            return Err(RegisterError::AlreadyAttached);
        }
        self.attached.push(attachment);
        proof {
            let s = self@;
            assert forall|i: int, j: int| 0 <= i < j < s.len() implies #[trigger] s[i].backend_id
                != #[trigger] s[j].backend_id by {
                if j == s.len() - 1 {
                    assert(old(self)@[i] == s[i]);
                }
            }
        }
        Ok(())
    }
}

/// Two registrations that each attached one backend, one after the other on
/// the same registry: both backends are attached, under distinct identities,
/// after every backend attached before, and none of those is lost.
pub proof fn lemma_two_registrations_both_attached(
    before: Seq<Attachment>,
    middle: Seq<Attachment>,
    after: Seq<Attachment>,
)
    requires
        middle.len() == before.len() + 1,
        middle.drop_last() == before,
        after.len() == middle.len() + 1,
        after.drop_last() == middle,
        attachments_wf(after),
    ensures
        after.len() == before.len() + 2,
        forall|i: int| 0 <= i < before.len() ==> #[trigger] after[i] == before[i],
        after[before.len() as int] == middle.last(),
        after.last().backend_id != middle.last().backend_id,
        !holds_backend(before, middle.last().backend_id),
        !holds_backend(before, after.last().backend_id),
{
    let n = before.len() as int;
    assert forall|i: int| 0 <= i < n implies #[trigger] after[i] == before[i] by {
        assert(after[i] == middle[i]);
        assert(middle[i] == before[i]);
    }
    assert(after[n] == middle[n]);
    assert(after[n].backend_id != after[n + 1].backend_id);
    if holds_backend(before, middle.last().backend_id) {
        let i = choose|i: int| 0 <= i < before.len() && #[trigger] before[i].backend_id == middle.last().backend_id;
        assert(after[i].backend_id != after[n].backend_id);
    }
    if holds_backend(before, after.last().backend_id) {
        let i = choose|i: int| 0 <= i < before.len() && #[trigger] before[i].backend_id == after.last().backend_id;
        assert(after[i].backend_id != after[n + 1].backend_id);
    }
}

} // verus!
