//! A byte budget for the body of an HTTP response: a body that announces or
//! delivers more than the budget is given up, not cut.

use vstd::prelude::*;

verus! {

/// Whether a response that announces `content_length` bytes is given up
/// before its body is read.
pub fn exceeds_limit(content_length: Option<u64>, limit: usize) -> (r: bool)
    ensures
        r == match content_length {
            Some(len) => len > limit,
            None => false,
        },
{
    match content_length {
        Some(len) => len > limit as u64,
        None => false,
    }
}

/// The capacity that the body's buffer starts with: the budget, 1024 at most.
pub fn initial_capacity(limit: usize) -> (r: usize)
    ensures
        r == if limit < 1024 {
            limit
        } else {
            1024
        },
{
    if limit < 1024 {
        limit
    } else {
        1024
    }
}

/// The chunks of a body one after the other.
pub open spec fn joined(chunks: Seq<Seq<u8>>) -> Seq<u8>
    decreases chunks.len(),
{
    if chunks.len() == 0 {
        Seq::empty()
    } else {
        joined(chunks.drop_last()) + chunks.last()
    }
}

/// The body that the chunks make, or nothing where it is over the budget.
pub open spec fn limited_body(chunks: Seq<Seq<u8>>, limit: usize) -> Option<Seq<u8>> {
    if joined(chunks).len() <= limit {
        Some(joined(chunks))
    } else {
        None
    }
}

/// The body of a response as far as it was read, within its budget.
#[derive(Debug)]
pub struct BodyLimiter {
    limit: usize,
    bytes: Vec<u8>,
}

/// A `BodyLimiter` as plain values: the budget, and what was read.
pub struct BodyView {
    pub limit: usize,
    pub bytes: Seq<u8>,
}

impl View for BodyLimiter {
    type V = BodyView;

    closed spec fn view(&self) -> BodyView {
        BodyView { limit: self.limit, bytes: self.bytes@ }
    }
}

impl BodyLimiter {
    /// What was read is within the budget.
    pub open spec fn wf(&self) -> bool {
        self@.bytes.len() <= self@.limit
    }

    /// An empty body with the budget `limit`.
    pub fn new(limit: usize) -> (body: BodyLimiter)
        ensures
            body.wf(),
            body@ == (BodyView { limit, bytes: Seq::empty() }),
    {
        BodyLimiter { limit, bytes: Vec::with_capacity(initial_capacity(limit)) }
    }

    /// Takes in the next chunk if the body stays within the budget with it.
    /// Returns whether it did; a body that did not is given up.
    pub fn push(&mut self, chunk: &[u8]) -> (fits: bool)
        requires
            old(self).wf(),
        ensures
            final(self).wf(),
            fits == (old(self)@.bytes.len() + chunk@.len() <= old(self)@.limit),
            final(self)@.limit == old(self)@.limit,
            fits ==> final(self)@.bytes == old(self)@.bytes + chunk@,
            !fits ==> final(self)@ == old(self)@,
    {
        if chunk.len() > self.limit - self.bytes.len() {
            return false;
        }
        self.bytes.extend_from_slice(chunk);
        true
    }

    /// The body.
    pub fn finish(self) -> (bytes: Vec<u8>)
        requires
            self.wf(),
        ensures
            bytes@ == self@.bytes,
            bytes@.len() <= self@.limit,
    {
        self.bytes
    }
}

/// The body that `chunks` make, or nothing where it is over `limit` bytes.
pub fn collect_with_limit(chunks: &[Vec<u8>], limit: usize) -> (body: Option<Vec<u8>>)
    ensures
        match body {
            Some(bytes) => limited_body(chunks@.map_values(|c: Vec<u8>| c@), limit) == Some(bytes@),
            None => limited_body(chunks@.map_values(|c: Vec<u8>| c@), limit) is None,
        },
{
    let ghost all = chunks@.map_values(|c: Vec<u8>| c@);
    let mut body = BodyLimiter::new(limit);
    let mut i: usize = 0;
    while i < chunks.len()
        invariant
            i <= chunks@.len(),
            all == chunks@.map_values(|c: Vec<u8>| c@),
            body.wf(),
            body@ == (BodyView { limit, bytes: joined(all.take(i as int)) }),
        decreases chunks@.len() - i,
    {
        proof {
            let next = all.take(i + 1);
            assert(next.drop_last() =~= all.take(i as int));
            assert(next.last() == chunks@[i as int]@);
        }
        if !body.push(chunks[i].as_slice()) {
            proof {
                lemma_joined_grows(all, i + 1);
            }
            return None;
        }
        i = i + 1;
    }
    proof {
        assert(all.take(i as int) =~= all);
    }
    Some(body.finish())
}

/// A body is at least as long as each of its beginnings.
pub proof fn lemma_joined_grows(chunks: Seq<Seq<u8>>, n: int)
    requires
        0 <= n <= chunks.len(),
    ensures
        joined(chunks.take(n)).len() <= joined(chunks).len(),
    decreases chunks.len(),
{
    if n < chunks.len() {
        lemma_joined_grows(chunks.drop_last(), n);
        assert(chunks.drop_last().take(n) =~= chunks.take(n));
    } else {
        assert(chunks.take(n) =~= chunks);
    }
}

} // verus!
