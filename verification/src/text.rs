//! Telling text from binary: a file is text when its bytes are valid
//! UTF-8. The bytes are taken chunk by chunk, and a character that is cut
//! by the end of a chunk is carried over to the next.

use vstd::prelude::*;
use vstd::slice::slice_subrange;
use vstd::utf8::{partial_valid_partial_invalid_utf8, valid_utf8, valid_utf8_concat};

verus! {

/// How many bytes are looked at in one step.
pub const CHUNK_SIZE: usize = 128;

/// Whether `bytes` can be continued to valid UTF-8.
pub open spec fn is_utf8_prefix(bytes: Seq<u8>) -> bool {
    exists|rest: Seq<u8>| valid_utf8(#[trigger] (bytes + rest))
}

/// Whether the first `k` bytes of `bytes` are valid UTF-8 and no longer
/// prefix is.
pub open spec fn is_longest_valid_prefix(bytes: Seq<u8>, k: int) -> bool {
    &&& 0 <= k <= bytes.len()
    &&& valid_utf8(bytes.subrange(0, k))
    &&& forall|n: int| k < n <= bytes.len() ==> !valid_utf8(#[trigger] bytes.subrange(0, n))
}

/// The length of the longest prefix of `bytes` that is valid UTF-8.
pub open spec fn valid_len(bytes: Seq<u8>) -> int {
    choose|k: int| is_longest_valid_prefix(bytes, k)
}

/// What follows the longest valid prefix of `bytes`: nothing, where all of
/// `bytes` is valid.
pub open spec fn unfinished_tail(bytes: Seq<u8>) -> Seq<u8> {
    bytes.subrange(valid_len(bytes), bytes.len() as int)
}

/// What the probe says to `chunk` after the bytes `fed`. An empty chunk
/// ends the file: the answer is whether `fed` is valid. Otherwise there is
/// no answer yet as long as the bytes can still become valid, and the
/// answer is `false` as soon as they cannot.
pub open spec fn step_answer(fed: Seq<u8>, chunk: Seq<u8>) -> Option<bool> {
    if chunk.len() == 0 {
        Some(valid_utf8(fed))
    } else if is_utf8_prefix(fed + chunk) {
        None
    } else {
        Some(false)
    }
}

/// The probe's answer for a file that comes as `chunks` after the bytes
/// `fed`, and then ends.
pub open spec fn probe_answer(fed: Seq<u8>, chunks: Seq<Seq<u8>>) -> bool
    decreases chunks.len(),
{
    if chunks.len() == 0 {
        valid_utf8(fed)
    } else {
        match step_answer(fed, chunks.first()) {
            Some(answer) => answer,
            None => probe_answer(fed + chunks.first(), chunks.drop_first()),
        }
    }
}

/// What `std::str::from_utf8` finds in a slice of bytes.
#[derive(Clone, Copy, Debug, PartialEq, Eq, Structural)]
pub(crate) enum Utf8Check {
    /// All of it is valid.
    Valid,
    /// The first `valid_up_to` bytes are valid, and what follows is the
    /// beginning of a character that the end of the slice cuts short.
    Incomplete { valid_up_to: usize },
    /// The first `valid_up_to` bytes are valid, and what follows can begin
    /// no character.
    Malformed { valid_up_to: usize },
}

/// Calls `std::str::from_utf8` and reads `valid_up_to` and `error_len` off
/// its error. Trusted, as std documents them: the slice is accepted exactly
/// when it is valid UTF-8; otherwise `valid_up_to` is the length of the
/// longest valid prefix, and the error has no length exactly when the end
/// of the slice was reached inside a character, one to three bytes after
/// `valid_up_to`, so that more bytes could complete it; where the error
/// has a length, an unexpected byte was met, and no continuation makes the
/// slice valid.
#[verifier::external_body]
pub(crate) fn check_utf8(bytes: &[u8]) -> (r: Utf8Check)
    ensures
        r is Valid <==> valid_utf8(bytes@),
        r matches Utf8Check::Incomplete { valid_up_to } ==> {
            &&& valid_up_to < bytes@.len() <= valid_up_to + 3
            &&& is_longest_valid_prefix(bytes@, valid_up_to as int)
            &&& is_utf8_prefix(bytes@)
        },
        r matches Utf8Check::Malformed { valid_up_to } ==> {
            &&& valid_up_to < bytes@.len()
            &&& is_longest_valid_prefix(bytes@, valid_up_to as int)
            &&& !is_utf8_prefix(bytes@)
        },
{
    match std::str::from_utf8(bytes) {
        Ok(_) => Utf8Check::Valid,
        Err(e) => match e.error_len() {
            None => Utf8Check::Incomplete { valid_up_to: e.valid_up_to() },
            Some(_) => Utf8Check::Malformed { valid_up_to: e.valid_up_to() },
        },
    }
}

/// Bytes that continue to valid UTF-8 after `head` do so alone, where
/// `head` is valid.
pub proof fn lemma_prefix_after_valid(head: Seq<u8>, tail: Seq<u8>)
    requires
        valid_utf8(head),
    ensures
        is_utf8_prefix(head + tail) <==> is_utf8_prefix(tail),
        valid_utf8(head + tail) <==> valid_utf8(tail),
{
    if valid_utf8(tail) {
        valid_utf8_concat(head, tail);
    }
    if valid_utf8(head + tail) && !valid_utf8(tail) {
        assert((head + tail).subrange(0, head.len() as int) =~= head);
        assert((head + tail).subrange(head.len() as int, (head + tail).len() as int) =~= tail);
        partial_valid_partial_invalid_utf8(head + tail, head.len() as int);
    }
    if is_utf8_prefix(tail) {
        let rest = choose|rest: Seq<u8>| valid_utf8(#[trigger] (tail + rest));
        valid_utf8_concat(head, tail + rest);
        assert(head + (tail + rest) =~= (head + tail) + rest);
    }
    if is_utf8_prefix(head + tail) {
        let rest = choose|rest: Seq<u8>| valid_utf8(#[trigger] ((head + tail) + rest));
        let all = (head + tail) + rest;
        if !valid_utf8(tail + rest) {
            assert(all.subrange(0, head.len() as int) =~= head);
            assert(all.subrange(head.len() as int, all.len() as int) =~= tail + rest);
            partial_valid_partial_invalid_utf8(all, head.len() as int);
        }
    }
}

/// There is one longest valid prefix.
pub proof fn lemma_longest_valid_prefix_unique(bytes: Seq<u8>, k: int)
    requires
        is_longest_valid_prefix(bytes, k),
    ensures
        valid_len(bytes) == k,
        unfinished_tail(bytes) == bytes.subrange(k, bytes.len() as int),
{
    let c = valid_len(bytes);
    assert(is_longest_valid_prefix(bytes, c));
    if c < k {
        assert(!valid_utf8(bytes.subrange(0, k)));
    }
    if k < c {
        assert(!valid_utf8(bytes.subrange(0, c)));
    }
}

/// The longest valid prefix of bytes that follow valid bytes lies as far
/// behind them as it lies in the bytes alone.
pub proof fn lemma_longest_valid_prefix_after_valid(head: Seq<u8>, tail: Seq<u8>, k: int)
    requires
        valid_utf8(head),
        is_longest_valid_prefix(tail, k),
    ensures
        is_longest_valid_prefix(head + tail, head.len() + k),
{
    let all = head + tail;
    assert(all.subrange(0, head.len() + k) =~= head + tail.subrange(0, k));
    valid_utf8_concat(head, tail.subrange(0, k));
    assert forall|n: int| head.len() + k < n <= all.len() implies !valid_utf8(
        #[trigger] all.subrange(0, n),
    ) by {
        let m = n - head.len();
        assert(all.subrange(0, n) =~= head + tail.subrange(0, m));
        lemma_prefix_after_valid(head, tail.subrange(0, m));
    }
}

/// Wherever a file is cut into chunks, the probe's answer is whether the
/// whole file is valid UTF-8.
pub proof fn lemma_chunking_is_irrelevant(fed: Seq<u8>, chunks: Seq<Seq<u8>>)
    requires
        forall|i: int| 0 <= i < chunks.len() ==> (#[trigger] chunks[i]).len() > 0,
    ensures
        probe_answer(fed, chunks) == valid_utf8(fed + chunks.flatten()),
    decreases chunks.len(),
{
    if chunks.len() == 0 {
        assert(fed + chunks.flatten() =~= fed);
    } else {
        let first = chunks.first();
        let others = chunks.drop_first();
        assert(first == chunks[0]);
        assert(fed + chunks.flatten() =~= (fed + first) + others.flatten());
        if is_utf8_prefix(fed + first) {
            assert forall|i: int| 0 <= i < others.len() implies (#[trigger] others[i]).len()
                > 0 by {
                assert(others[i] == chunks[i + 1]);
            }
            lemma_chunking_is_irrelevant(fed + first, others);
        }
    }
}

/// Valid UTF-8 can be continued to valid UTF-8: by nothing.
pub proof fn lemma_valid_is_prefix(bytes: Seq<u8>)
    requires
        valid_utf8(bytes),
    ensures
        is_utf8_prefix(bytes),
{
    assert(bytes + Seq::<u8>::empty() =~= bytes);
}

/// A probe that is fed a file's bytes chunk by chunk. It keeps the bytes
/// of a character that the last chunk cut short.
pub struct Utf8Probe {
    pending: Vec<u8>,
    fed: Ghost<Seq<u8>>,
}

/// What a probe says after a step: it wants more bytes, or it knows the
/// answer.
pub enum ProbeStep {
    More(Utf8Probe),
    Done(bool),
}

impl Utf8Probe {
    /// All the bytes that the probe was fed, in order.
    pub closed spec fn fed(&self) -> Seq<u8> {
        self.fed@
    }

    #[verifier::type_invariant]
    spec fn inv(&self) -> bool {
        let split = self.fed@.len() - self.pending@.len();
        &&& self.pending@.len() <= 3
        &&& is_longest_valid_prefix(self.fed@, split)
        &&& self.fed@.subrange(split, self.fed@.len() as int) == self.pending@
        &&& is_utf8_prefix(self.pending@)
    }

    /// A probe that was fed nothing.
    pub fn new() -> (r: Utf8Probe)
        ensures
            r.fed() == Seq::<u8>::empty(),
    {
        proof {
            let none = Seq::<u8>::empty();
            assert(none.subrange(0, 0) =~= none);
            lemma_valid_is_prefix(none);
        }
        Utf8Probe { pending: Vec::new(), fed: Ghost(Seq::empty()) }
    }

    /// How many bytes to read for the next step, so that they and the
    /// bytes of the unfinished character fill one chunk.
    pub fn room(&self) -> (r: usize)
        ensures
            r == CHUNK_SIZE - unfinished_tail(self.fed()).len(),
            CHUNK_SIZE - 3 <= r <= CHUNK_SIZE,
    {
        proof {
            use_type_invariant(self);
            lemma_longest_valid_prefix_unique(self.fed@, self.fed@.len() - self.pending@.len());
        }
        CHUNK_SIZE - self.pending.len()
    }

    /// Takes the next chunk of the file; an empty chunk says that the file
    /// has ended. At the end of the file the answer is whether all the
    /// bytes fed are valid UTF-8. Before it, the probe goes on as long as
    /// the bytes fed can still become valid UTF-8, and answers `false` as
    /// soon as they cannot.
    pub fn step(self, chunk: &[u8]) -> (r: ProbeStep)
        ensures
            match step_answer(self.fed(), chunk@) {
                Some(answer) => r == ProbeStep::Done(answer),
                None => {
                    &&& r matches ProbeStep::More(next)
                    &&& next.fed() == self.fed() + chunk@
                },
            },
    {
        proof {
            use_type_invariant(&self);
        }
        let ghost before = self.fed@;
        let ghost carried = self.pending@;
        let ghost head = before.subrange(0, before.len() - carried.len());
        assert(before =~= head + carried);
        let Utf8Probe { pending, fed: _ } = self;
        if chunk.len() == 0 {
            assert(before.subrange(0, before.len() as int) =~= before);
            return ProbeStep::Done(pending.len() == 0);
        }
        let mut buf = pending;
        buf.extend_from_slice(chunk);
        let ghost all = before + chunk@;
        proof {
            assert(buf@ =~= carried + chunk@);
            assert(all =~= head + buf@);
            lemma_prefix_after_valid(head, buf@);
        }
        match check_utf8(buf.as_slice()) {
            Utf8Check::Valid => {
                proof {
                    lemma_valid_is_prefix(buf@);
                    assert(all.subrange(0, all.len() as int) =~= all);
                    assert(all.subrange(all.len() as int, all.len() as int) =~= Seq::<u8>::empty());
                    lemma_valid_is_prefix(Seq::<u8>::empty());
                }
                ProbeStep::More(Utf8Probe { pending: Vec::new(), fed: Ghost(all) })
            },
            Utf8Check::Incomplete { valid_up_to } => {
                let rest = slice_subrange(buf.as_slice(), valid_up_to, buf.len());
                let mut kept: Vec<u8> = Vec::new();
                kept.extend_from_slice(rest);
                proof {
                    let good = buf@.subrange(0, valid_up_to as int);
                    assert(kept@ =~= buf@.subrange(valid_up_to as int, buf@.len() as int));
                    assert(buf@ =~= good + kept@);
                    lemma_prefix_after_valid(good, kept@);
                    lemma_longest_valid_prefix_after_valid(head, buf@, valid_up_to as int);
                    assert(all.subrange(all.len() - kept@.len(), all.len() as int) =~= kept@);
                }
                ProbeStep::More(Utf8Probe { pending: kept, fed: Ghost(all) })
            },
            Utf8Check::Malformed { .. } => ProbeStep::Done(false),
        }
    }
}

/// Whether `content` is text, found as it is found of a file: chunk by
/// chunk, each of as many bytes as the probe has room for.
pub fn is_valid_utf8(content: &[u8]) -> (r: bool)
    ensures
        r == valid_utf8(content@),
{
    let mut probe = Utf8Probe::new();
    let mut pos: usize = 0;
    loop
        invariant
            pos <= content.len(),
            probe.fed() == content@.subrange(0, pos as int),
        decreases content.len() - pos,
    {
        let room = probe.room();
        let n = if content.len() - pos < room {
            content.len() - pos
        } else {
            room
        };
        let chunk = slice_subrange(content, pos, pos + n);
        proof {
            assert(content@.subrange(0, pos as int) + chunk@ =~= content@.subrange(
                0,
                pos + n,
            ));
            assert(content@.subrange(0, pos + n) + content@.subrange(
                pos + n,
                content@.len() as int,
            ) =~= content@);
            assert(content@.subrange(0, content@.len() as int) =~= content@);
        }
        match probe.step(chunk) {
            ProbeStep::More(next) => {
                probe = next;
                pos += n;
            },
            ProbeStep::Done(answer) => {
                return answer;
            },
        }
    }
}

} // verus!
