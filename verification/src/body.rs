//! Bounded body aggregation: a suspend-capable state machine that collects a
//! byte stream chunk by chunk under a hard size cap, enforced pre-emptively
//! against a declared length and incrementally against the running total.
//!
//! The caller that owns the actual stream drives the machine: it hands each
//! chunk to [`RicksponseBody::push_chunk`] and reads the outcome with
//! [`RicksponseBody::finish`] when the stream is exhausted.

use vstd::prelude::*;

use crate::negotiate::spec_first_known;
use crate::negotiate::views_of;
use crate::negotiate::ContentType;
use crate::payload_error::PayloadError;

verus! {

#[verifier::external_type_specification]
#[verifier::external_body]
pub struct ExBytesMut(bytes::BytesMut);

/// The bytes a buffer holds.
pub uninterp spec fn buffered(b: bytes::BytesMut) -> Seq<u8>;

/// Relies on `bytes::BytesMut::new`: a newly created buffer holds nothing.
#[verifier::external_body]
fn buf_new() -> (r: bytes::BytesMut)
    ensures
        buffered(r) == Seq::<u8>::empty(),
{
    bytes::BytesMut::new()
}

/// Relies on `bytes::BytesMut::len`: the number of bytes the buffer holds.
#[verifier::external_body]
fn buf_len(b: &bytes::BytesMut) -> (r: usize)
    ensures
        r == buffered(*b).len(),
{
    b.len()
}

/// Relies on `bytes::BytesMut::extend_from_slice`: appends the given bytes
/// after those already held.
#[verifier::external_body]
fn buf_extend(b: &mut bytes::BytesMut, chunk: &[u8])
    ensures
        buffered(*final(b)) == buffered(*old(b)) + chunk@,
{
    b.extend_from_slice(chunk);
}

/// Relies on `slice::to_vec`, on the byte slice that `BytesMut`'s `as_ref`
/// exposes: copies the held bytes out in order.
#[verifier::external_body]
fn buf_to_vec(b: &bytes::BytesMut) -> (r: Vec<u8>)
    ensures
        r@ == buffered(*b),
{
    b.as_ref().to_vec()
}

/// The aggregator: still collecting, or failed. Successful completion is the
/// value [`RicksponseBody::finish`] returns rather than a stored state.
pub enum RicksponseBody {
    /// Aggregation has failed; further input is discarded.
    Failed(PayloadError),
    /// Still collecting chunks into the owned buffer.
    Pending {
        /// The hard cap on the aggregated size.
        limit: usize,
        /// The length the request declared, if any.
        declared_length: Option<usize>,
        /// The wire format negotiated for the body.
        content_type: ContentType,
        /// The bytes collected so far; never longer than `limit`.
        buffer: bytes::BytesMut,
    },
}

/// The mathematical state of an aggregator: as [`RicksponseBody`], with the
/// buffer abstracted to the byte sequence it holds.
pub enum AggModel {
    Failed(PayloadError),
    Pending {
        limit: usize,
        declared_length: Option<usize>,
        content_type: ContentType,
        bytes: Seq<u8>,
    },
}

impl AggModel {
    /// A pending state never holds more than its limit.
    pub open spec fn inv(self) -> bool {
        match self {
            AggModel::Failed(_) => true,
            AggModel::Pending { limit, bytes, .. } => bytes.len() <= limit,
        }
    }
}

impl View for RicksponseBody {
    type V = AggModel;

    open spec fn view(&self) -> AggModel {
        match *self {
            RicksponseBody::Failed(e) => AggModel::Failed(e),
            RicksponseBody::Pending { limit, declared_length, content_type, buffer } => {
                AggModel::Pending {
                    limit,
                    declared_length,
                    content_type,
                    bytes: buffered(buffer),
                }
            },
        }
    }
}

/// What constructing an aggregator yields: the first recognized body-type
/// value fixes the wire format, an all-unknown list is rejected before any
/// byte is read, and a declared length over the cap is rejected likewise.
pub open spec fn spec_new_body(
    content_type_values: Seq<Seq<char>>,
    declared_length: Option<usize>,
    limit: usize,
) -> AggModel {
    match spec_first_known(content_type_values) {
        None => AggModel::Failed(PayloadError::ContentTypeUnrecognized),
        Some(ct) => match declared_length {
            Some(len) => if len > limit {
                AggModel::Failed(PayloadError::OverflowKnownLength { length: len, limit })
            } else {
                AggModel::Pending { limit, declared_length, content_type: ct, bytes: Seq::empty() }
            },
            None => AggModel::Pending {
                limit,
                declared_length,
                content_type: ct,
                bytes: Seq::empty(),
            },
        },
    }
}

/// One consumption step: a failed aggregator discards the chunk; a pending
/// one fails with `Overflow` if the chunk would push it past its limit, and
/// appends the chunk otherwise.
pub open spec fn spec_step(m: AggModel, chunk: Seq<u8>) -> AggModel {
    match m {
        AggModel::Failed(_) => m,
        AggModel::Pending { limit, declared_length, content_type, bytes } => {
            if bytes.len() + chunk.len() > limit {
                AggModel::Failed(PayloadError::Overflow { limit })
            } else {
                AggModel::Pending {
                    limit,
                    declared_length,
                    content_type,
                    bytes: bytes + chunk,
                }
            }
        },
    }
}

/// A whole stream consumed chunk by chunk, in order.
pub open spec fn spec_run(m: AggModel, chunks: Seq<Seq<u8>>) -> AggModel
    decreases chunks.len(),
{
    if chunks.len() == 0 {
        m
    } else {
        spec_run(spec_step(m, chunks.first()), chunks.drop_first())
    }
}

/// A failed aggregator discards all further input.
proof fn lemma_run_failed(e: PayloadError, chunks: Seq<Seq<u8>>)
    ensures
        spec_run(AggModel::Failed(e), chunks) == AggModel::Failed(e),
    decreases chunks.len(),
{
    if chunks.len() > 0 {
        lemma_run_failed(e, chunks.drop_first());
    }
}

/// Consuming one more chunk is one more step.
proof fn lemma_run_snoc(m: AggModel, chunks: Seq<Seq<u8>>, c: Seq<u8>)
    ensures
        spec_run(m, chunks.push(c)) == spec_step(spec_run(m, chunks), c),
    decreases chunks.len(),
{
    if chunks.len() == 0 {
        assert(chunks.push(c).first() == c);
        assert(chunks.push(c).drop_first() =~= Seq::<Seq<u8>>::empty());
        assert(spec_run(m, chunks.push(c)) == spec_run(
            spec_step(m, c),
            chunks.push(c).drop_first(),
        ));
        assert(spec_run(m, chunks.push(c)) == spec_step(m, c));
        assert(spec_run(m, chunks) == m);
    } else {
        assert(chunks.push(c).first() == chunks.first());
        assert(chunks.push(c).drop_first() =~= chunks.drop_first().push(c));
        lemma_run_snoc(spec_step(m, chunks.first()), chunks.drop_first(), c);
        assert(spec_run(m, chunks.push(c)) == spec_run(
            spec_step(m, chunks.first()),
            chunks.drop_first().push(c),
        ));
        assert(spec_run(m, chunks) == spec_run(spec_step(m, chunks.first()), chunks.drop_first()));
    }
}

/// A stream split anywhere runs as its two parts in order.
proof fn lemma_run_concat(m: AggModel, a: Seq<Seq<u8>>, b: Seq<Seq<u8>>)
    ensures
        spec_run(m, a + b) == spec_run(spec_run(m, a), b),
    decreases a.len(),
{
    if a.len() == 0 {
        assert(a + b =~= b);
    } else {
        assert((a + b).first() == a.first());
        assert((a + b).drop_first() =~= a.drop_first() + b);
        lemma_run_concat(spec_step(m, a.first()), a.drop_first(), b);
    }
}

/// The bytes of one more chunk come after those of the chunks before it.
proof fn lemma_flatten_take_snoc(chunks: Seq<Seq<u8>>, j: int)
    requires
        0 <= j < chunks.len(),
    ensures
        chunks.take(j + 1).flatten() == chunks.take(j).flatten() + chunks[j],
{
    let a = chunks.take(j + 1);
    a.lemma_flatten_and_flatten_alt_are_equivalent();
    chunks.take(j).lemma_flatten_and_flatten_alt_are_equivalent();
    assert(a.drop_last() =~= chunks.take(j));
    assert(a.last() == chunks[j]);
    assert(chunks.take(j + 1).flatten() =~= chunks.take(j).flatten() + chunks[j]);
}

/// A pending aggregator observes its limit at every point: however a stream
/// is consumed, the bytes held never exceed the cap.
pub proof fn lemma_run_preserves_inv(m: AggModel, chunks: Seq<Seq<u8>>)
    requires
        m.inv(),
    ensures
        spec_run(m, chunks).inv(),
    decreases chunks.len(),
{
    if chunks.len() > 0 {
        lemma_run_preserves_inv(spec_step(m, chunks.first()), chunks.drop_first());
    }
}

/// While every prefix of the stream fits under the limit, the aggregator
/// stays pending and holds exactly the bytes of the chunks consumed so far,
/// in order.
pub proof fn lemma_pending_while_within_limit(m: AggModel, chunks: Seq<Seq<u8>>, k: int)
    requires
        m matches AggModel::Pending { .. },
        0 <= k <= chunks.len(),
        forall|j: int|
            0 <= j < k ==> m->bytes.len() + #[trigger] chunks.take(j + 1).flatten().len()
                <= m->limit,
    ensures
        forall|j: int|
            0 <= j <= k ==> #[trigger] spec_run(m, chunks.take(j)) == (AggModel::Pending {
                limit: m->limit,
                declared_length: m->declared_length,
                content_type: m->content_type,
                bytes: m->bytes + chunks.take(j).flatten(),
            }),
    decreases k,
{
    if k == 0 {
        assert(chunks.take(0) =~= Seq::<Seq<u8>>::empty());
        assert(m->bytes + chunks.take(0).flatten() =~= m->bytes);
    } else {
        lemma_pending_while_within_limit(m, chunks, k - 1);
        assert(chunks.take(k) =~= chunks.take(k - 1).push(chunks[k - 1]));
        lemma_run_snoc(m, chunks.take(k - 1), chunks[k - 1]);
        lemma_flatten_take_snoc(chunks, k - 1);
        assert(m->bytes + chunks.take(k - 1).flatten() + chunks[k - 1] =~= m->bytes + chunks.take(
            k,
        ).flatten());
    }
}

/// For a pending aggregator and a stream whose cumulative size first
/// exceeds the limit at chunk `k`, consumption is exact: every run of fewer
/// than `k + 1` chunks leaves the aggregator pending with precisely those
/// bytes, and from chunk `k` on the whole stream resolves to an `Overflow`
/// failure.
pub proof fn lemma_overflow_at_first_excess(m: AggModel, chunks: Seq<Seq<u8>>, k: int)
    requires
        m matches AggModel::Pending { .. },
        0 <= k < chunks.len(),
        forall|j: int|
            0 <= j < k ==> m->bytes.len() + #[trigger] chunks.take(j + 1).flatten().len()
                <= m->limit,
        m->bytes.len() + chunks.take(k + 1).flatten().len() > m->limit,
    ensures
        forall|j: int|
            0 <= j <= k ==> #[trigger] spec_run(m, chunks.take(j)) == (AggModel::Pending {
                limit: m->limit,
                declared_length: m->declared_length,
                content_type: m->content_type,
                bytes: m->bytes + chunks.take(j).flatten(),
            }),
        spec_run(m, chunks.take(k + 1)) == AggModel::Failed(
            PayloadError::Overflow { limit: m->limit },
        ),
        spec_run(m, chunks) == AggModel::Failed(PayloadError::Overflow { limit: m->limit }),
{
    lemma_pending_while_within_limit(m, chunks, k);
    assert(chunks.take(k + 1) =~= chunks.take(k).push(chunks[k]));
    lemma_run_snoc(m, chunks.take(k), chunks[k]);
    lemma_flatten_take_snoc(chunks, k);
    assert(chunks =~= chunks.take(k + 1) + chunks.skip(k + 1));
    lemma_run_concat(m, chunks.take(k + 1), chunks.skip(k + 1));
    lemma_run_failed(PayloadError::Overflow { limit: m->limit }, chunks.skip(k + 1));
}

impl RicksponseBody {
    /// Build an aggregator for one request from the raw values of its
    /// body-type header and its declared length, under the default cap.
    /// Rejections here are pre-flight: no stream input is consumed.
    pub fn new(content_type_values: &Vec<String>, declared_length: Option<usize>) -> (r: Self)
        ensures
            r@ == spec_new_body(
                views_of(content_type_values@),
                declared_length,
                crate::DEFAULT_BODY_LIMIT,
            ),
            r@.inv(),
    {
        match crate::negotiate::negotiate_request_content_type(content_type_values) {
            Err(e) => RicksponseBody::Failed(e),
            Ok(content_type) => {
                let over = match declared_length {
                    Some(len) => len > crate::DEFAULT_BODY_LIMIT,
                    None => false,
                };
                if over {
                    let len = match declared_length {
                        Some(len) => len,
                        None => vstd::pervasive::unreached(),
                    };
                    RicksponseBody::Failed(
                        PayloadError::OverflowKnownLength {
                            length: len,
                            limit: crate::DEFAULT_BODY_LIMIT,
                        },
                    )
                } else {
                    RicksponseBody::Pending {
                        limit: crate::DEFAULT_BODY_LIMIT,
                        declared_length,
                        content_type,
                        buffer: buf_new(),
                    }
                }
            },
        }
    }

    /// Re-configure the cap. The declared length and the bytes already held
    /// are checked against the new cap at once, so a pending state always
    /// observes its limit; a failed aggregator stays failed.
    pub fn limit(self, limit: usize) -> (r: Self)
        ensures
            r@ == (match self@ {
                AggModel::Failed(e) => AggModel::Failed(e),
                AggModel::Pending { declared_length, content_type, bytes, .. } => {
                    let declared_over = match declared_length {
                        Some(len) => len > limit,
                        None => false,
                    };
                    if declared_over {
                        AggModel::Failed(
                            PayloadError::OverflowKnownLength {
                                length: declared_length->0,
                                limit,
                            },
                        )
                    } else if bytes.len() > limit {
                        AggModel::Failed(PayloadError::Overflow { limit })
                    } else {
                        AggModel::Pending { limit, declared_length, content_type, bytes }
                    }
                },
            }),
            r@.inv(),
    {
        match self {
            RicksponseBody::Failed(e) => RicksponseBody::Failed(e),
            RicksponseBody::Pending { declared_length, content_type, buffer, .. } => {
                let over = match declared_length {
                    Some(len) => len > limit,
                    None => false,
                };
                if over {
                    let len = match declared_length {
                        Some(len) => len,
                        None => vstd::pervasive::unreached(),
                    };
                    RicksponseBody::Failed(PayloadError::OverflowKnownLength { length: len, limit })
                } else if buf_len(&buffer) > limit {
                    RicksponseBody::Failed(PayloadError::Overflow { limit })
                } else {
                    RicksponseBody::Pending { limit, declared_length, content_type, buffer }
                }
            },
        }
    }

    /// Consume one chunk of the underlying stream.
    pub fn push_chunk(&mut self, chunk: &[u8])
        requires
            old(self)@.inv(),
        ensures
            final(self)@ == spec_step(old(self)@, chunk@),
            final(self)@.inv(),
    {
        let mut fail_limit: Option<usize> = None;
        match &mut *self {
            RicksponseBody::Failed(_) => {},
            RicksponseBody::Pending { limit, buffer, .. } => {
                let blen = buf_len(buffer);
                if chunk.len() > *limit || blen > *limit - chunk.len() {
                    fail_limit = Some(*limit);
                } else {
                    buf_extend(buffer, chunk);
                }
            },
        }
        match fail_limit {
            Some(limit) => {
                *self = RicksponseBody::Failed(PayloadError::Overflow { limit });
            },
            None => {},
        }
    }

    /// Record that the underlying stream itself failed; aggregation is
    /// abandoned and the failure is propagated to the outcome.
    pub fn stream_failed(&mut self, detail: String)
        ensures
            final(self)@ == AggModel::Failed(PayloadError::UpstreamStreamError(detail)),
    {
        *self = RicksponseBody::Failed(PayloadError::UpstreamStreamError(detail));
    }

    /// Consume a whole stream, chunk by chunk, in order.
    pub fn consume_all(&mut self, chunks: &Vec<Vec<u8>>)
        requires
            old(self)@.inv(),
        ensures
            final(self)@ == spec_run(old(self)@, chunks@.map_values(|c: Vec<u8>| c@)),
            final(self)@.inv(),
    {
        let ghost cs = chunks@.map_values(|c: Vec<u8>| c@);
        proof {
            assert(cs.skip(0) =~= cs);
        }
        let mut i: usize = 0;
        while i < chunks.len()
            invariant
                0 <= i <= chunks.len(),
                cs == chunks@.map_values(|c: Vec<u8>| c@),
                cs.len() == chunks@.len(),
                self@.inv(),
                spec_run(self@, cs.skip(i as int)) == spec_run(old(self)@, cs),
            decreases chunks.len() - i,
        {
            proof {
                assert(cs.skip(i as int).first() == cs[i as int]);
                assert(cs.skip(i as int).drop_first() =~= cs.skip(i + 1 as int));
                assert(cs[i as int] == chunks@[i as int]@);
            }
            self.push_chunk(chunks[i].as_slice());
            i = i + 1;
        }
        proof {
            assert(cs.skip(chunks@.len() as int) =~= Seq::<Seq<u8>>::empty());
        }
    }

    /// Read the outcome once the stream is exhausted: the aggregated bytes
    /// and the negotiated wire format, or the failure.
    pub fn finish(self) -> (r: Result<(Vec<u8>, ContentType), PayloadError>)
        ensures
            match self@ {
                AggModel::Failed(e) => r == Err::<(Vec<u8>, ContentType), PayloadError>(e),
                AggModel::Pending { content_type, bytes, .. } => r matches Ok((b, ct)) && b@
                    == bytes && ct == content_type,
            },
    {
        match self {
            RicksponseBody::Failed(e) => Err(e),
            RicksponseBody::Pending { buffer, content_type, .. } => {
                Ok((buf_to_vec(&buffer), content_type))
            },
        }
    }
}

} // verus!
