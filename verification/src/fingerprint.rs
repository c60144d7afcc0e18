//! The fingerprint by which recurrences of one failure are grouped.

use crate::capture::{frame_views, StackFrame, StackFrameView};
use crate::digest::{hex_encode, hex_lower, sha256, sha256_digest};
use crate::sequences::{
    capped, lemma_capped_filter_settled, lemma_filter_all_rejected, lemma_filter_next,
    lemma_filter_none,
};
use crate::text::{decimal, push_decimal};
use vstd::prelude::*;
use vstd::string::*;
use vstd::utf8::encode_utf8;

verus! {

/// Number of frames that take part in a fingerprint.
pub const FINGERPRINT_FRAMES: usize = 5;

/// Selects the frames of host application code.
pub open spec fn non_native() -> spec_fn(StackFrameView) -> bool {
    |f: StackFrameView| !f.is_native
}

/// The frames that take part in a fingerprint: the first five that are
/// not native.
pub open spec fn fingerprint_frames(frames: Seq<StackFrameView>) -> Seq<StackFrameView> {
    capped(frames.filter(non_native()), FINGERPRINT_FRAMES as nat)
}

/// Line number as it is written into a fingerprint: zero when unknown.
pub open spec fn line_or_zero(line: Option<u32>) -> nat {
    match line {
        Some(n) => n as nat,
        None => 0,
    }
}

/// What one frame contributes to a fingerprint: its function name, a colon
/// and its line number.
pub open spec fn frame_part(f: StackFrameView) -> Seq<char> {
    f.method_name + seq![':'] + decimal(line_or_zero(f.line_number))
}

/// The failure kind followed by the part of each selected frame, joined by
/// colons.
pub open spec fn joined_parts(kind: Seq<char>, selected: Seq<StackFrameView>) -> Seq<char>
    decreases selected.len(),
{
    if selected.len() == 0 {
        kind
    } else {
        joined_parts(kind, selected.drop_last()) + seq![':'] + frame_part(selected.last())
    }
}

/// The text that is hashed into a fingerprint.
pub open spec fn fingerprint_text(kind: Seq<char>, frames: Seq<StackFrameView>) -> Seq<char> {
    joined_parts(kind, fingerprint_frames(frames))
}

/// The fingerprint of a failure: the first eight bytes of the SHA-256 digest
/// of its fingerprint text, in lowercase hexadecimal.
pub open spec fn fingerprint_of(kind: Seq<char>, frames: Seq<StackFrameView>) -> Seq<char> {
    hex_lower(sha256_digest(encode_utf8(fingerprint_text(kind, frames))).take(8))
}

/// Two frames that a fingerprint cannot tell apart: they agree on function
/// name, line number and native flag.
pub open spec fn alike_for_fingerprint(a: StackFrameView, b: StackFrameView) -> bool {
    &&& a.method_name == b.method_name
    &&& a.line_number == b.line_number
    &&& a.is_native == b.is_native
}

/// Two stacks of the same depth whose frames are alike position by position.
pub open spec fn stacks_alike(a: Seq<StackFrameView>, b: Seq<StackFrameView>) -> bool {
    &&& a.len() == b.len()
    &&& forall|i: int| 0 <= i < a.len() ==> alike_for_fingerprint(#[trigger] a[i], b[i])
}

proof fn lemma_filter_alike(a: Seq<StackFrameView>, b: Seq<StackFrameView>)
    requires
        stacks_alike(a, b),
    ensures
        stacks_alike(a.filter(non_native()), b.filter(non_native())),
    decreases a.len(),
{
    reveal(Seq::filter);
    if a.len() > 0 {
        assert(stacks_alike(a.drop_last(), b.drop_last()));
        lemma_filter_alike(a.drop_last(), b.drop_last());
    }
}

proof fn lemma_joined_alike(kind: Seq<char>, a: Seq<StackFrameView>, b: Seq<StackFrameView>)
    requires
        stacks_alike(a, b),
    ensures
        joined_parts(kind, a) == joined_parts(kind, b),
    decreases a.len(),
{
    if a.len() > 0 {
        assert(stacks_alike(a.drop_last(), b.drop_last()));
        lemma_joined_alike(kind, a.drop_last(), b.drop_last());
    }
}

/// A fingerprint is a function of the failure kind and of the name, line
/// and native flag of each frame: the same kind raised with alike stacks
/// has the same fingerprint, however often it is computed.
pub proof fn fingerprint_is_deterministic(
    kind_a: Seq<char>,
    frames_a: Seq<StackFrameView>,
    kind_b: Seq<char>,
    frames_b: Seq<StackFrameView>,
)
    requires
        kind_a == kind_b,
        stacks_alike(frames_a, frames_b),
    ensures
        fingerprint_text(kind_a, frames_a) == fingerprint_text(kind_b, frames_b),
        fingerprint_of(kind_a, frames_a) == fingerprint_of(kind_b, frames_b),
{
    lemma_filter_alike(frames_a, frames_b);
    assert(stacks_alike(fingerprint_frames(frames_a), fingerprint_frames(frames_b)));
    lemma_joined_alike(kind_a, fingerprint_frames(frames_a), fingerprint_frames(frames_b));
}

/// The fingerprint text is the failure kind followed by a tail that the
/// kind has no part in.
proof fn lemma_joined_has_kind_prefix(kind: Seq<char>, selected: Seq<StackFrameView>)
    ensures
        joined_parts(kind, selected) == kind + joined_parts(Seq::empty(), selected),
    decreases selected.len(),
{
    if selected.len() > 0 {
        lemma_joined_has_kind_prefix(kind, selected.drop_last());
    }
}

/// Two failures raised with the same stack but of different kinds hash
/// different texts, and so different bytes. (That the digests then differ
/// is a property of SHA-256, which holds but for a collision.)
pub proof fn distinct_kinds_hash_distinct_texts(
    kind_a: Seq<char>,
    kind_b: Seq<char>,
    frames: Seq<StackFrameView>,
)
    requires
        kind_a != kind_b,
    ensures
        fingerprint_text(kind_a, frames) != fingerprint_text(kind_b, frames),
        encode_utf8(fingerprint_text(kind_a, frames)) != encode_utf8(
            fingerprint_text(kind_b, frames),
        ),
{
    let selected = fingerprint_frames(frames);
    let text_a = fingerprint_text(kind_a, frames);
    let text_b = fingerprint_text(kind_b, frames);
    lemma_joined_has_kind_prefix(kind_a, selected);
    lemma_joined_has_kind_prefix(kind_b, selected);
    if text_a == text_b {
        assert(kind_a =~= text_a.take(kind_a.len() as int));
        assert(kind_b =~= text_b.take(kind_b.len() as int));
    }
    vstd::utf8::encode_utf8_decode_utf8(text_a);
    vstd::utf8::encode_utf8_decode_utf8(text_b);
}

/// A stack without any non-native frame leaves the fingerprint to the
/// failure kind alone: it is the fingerprint of that kind with no stack at
/// all, so two such failures of one kind share it.
pub proof fn fingerprint_of_native_stack(kind: Seq<char>, frames: Seq<StackFrameView>)
    requires
        forall|i: int| 0 <= i < frames.len() ==> (#[trigger] frames[i]).is_native,
    ensures
        fingerprint_text(kind, frames) == kind,
        fingerprint_of(kind, frames) == hex_lower(sha256_digest(encode_utf8(kind)).take(8)),
        fingerprint_of(kind, frames) == fingerprint_of(kind, Seq::empty()),
{
    lemma_filter_all_rejected(frames, non_native());
    lemma_filter_all_rejected(Seq::<StackFrameView>::empty(), non_native());
}

/// Computes the fingerprint of a failure of kind `exception_type` raised
/// with the call stack `stack_trace`.
pub fn calculate_fingerprint(exception_type: &str, stack_trace: &[StackFrame]) -> (fingerprint:
    String)
    ensures
        fingerprint@ == fingerprint_of(exception_type@, frame_views(stack_trace@)),
        fingerprint@.len() == 16,
{
    let ghost views = frame_views(stack_trace@);
    let mut text = String::from_str(exception_type);
    let mut added: usize = 0;
    let mut i: usize = 0;
    proof {
        lemma_filter_none(views, non_native());
    }
    while i < stack_trace.len() && added < FINGERPRINT_FRAMES
        invariant
            i <= stack_trace.len(),
            views == frame_views(stack_trace@),
            added <= FINGERPRINT_FRAMES,
            added == views.take(i as int).filter(non_native()).len(),
            text@ == joined_parts(exception_type@, views.take(i as int).filter(non_native())),
        decreases stack_trace.len() - i,
    {
        let frame = &stack_trace[i];
        let ghost before = views.take(i as int).filter(non_native());
        proof {
            lemma_filter_next(views, non_native(), i as int);
        }
        if !frame.is_native {
            text.append(":");
            text.append(frame.method_name.as_str());
            text.append(":");
            let line: u32 = match frame.line_number {
                Some(n) => n,
                None => 0,
            };
            push_decimal(&mut text, line);
            added += 1;
            proof {
                reveal_strlit(":");
                assert(before.push(frame@).drop_last() =~= before);
            }
        }
        i += 1;
    }
    proof {
        if added >= FINGERPRINT_FRAMES {
            lemma_capped_filter_settled(views, non_native(), i as int, FINGERPRINT_FRAMES as nat);
        } else {
            assert(views.take(i as int) =~= views);
        }
    }
    let digest = sha256(text.as_str().as_bytes());
    let head = vstd::slice::slice_subrange(digest.as_slice(), 0, 8);
    hex_encode(head)
}

} // verus!
