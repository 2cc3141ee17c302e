//! Telling text files from binary ones by the first bytes of their content.
use vstd::prelude::*;
use vstd::slice::slice_subrange;

verus! {

/// How many leading bytes of a file are sampled to classify it.
pub const SAMPLE_LEN: usize = 1024;

pub open spec fn starts_with(b: Seq<u8>, m: Seq<u8>) -> bool {
    m.len() <= b.len() && b.subrange(0, m.len() as int) =~= m
}

/// A UTF-8, UTF-16 or UTF-32 byte order mark opens `b`.
pub open spec fn has_unicode_bom(b: Seq<u8>) -> bool {
    starts_with(b, seq![0xEFu8, 0xBBu8, 0xBFu8]) || starts_with(b, seq![0x00u8, 0x00u8, 0xFEu8, 0xFFu8])
        || starts_with(b, seq![0xFFu8, 0xFEu8]) || starts_with(b, seq![0xFEu8, 0xFFu8])
}

/// `b` holds a NUL byte among its first `SAMPLE_LEN` bytes.
pub open spec fn has_nul_in_sample(b: Seq<u8>) -> bool {
    exists|i: int| 0 <= i < b.len() && i < SAMPLE_LEN && b[i] == 0u8
}

/// `b` opens with the signature of a PDF or a PNG file.
pub open spec fn has_binary_signature(b: Seq<u8>) -> bool {
    starts_with(b, seq![0x25u8, 0x50u8, 0x44u8, 0x46u8]) || starts_with(
        b,
        seq![0x89u8, 0x50u8, 0x4Eu8, 0x47u8],
    )
}

/// The content sniffing rule: binary unless a byte order mark says
/// otherwise, when a NUL byte or a binary file signature is found.
pub open spec fn sniffs_binary(b: Seq<u8>) -> bool {
    !has_unicode_bom(b) && (has_nul_in_sample(b) || has_binary_signature(b))
}

/// The part of a file's content that classifies it.
pub open spec fn sample_of(b: Seq<u8>) -> Seq<u8> {
    if b.len() <= SAMPLE_LEN {
        b
    } else {
        b.subrange(0, SAMPLE_LEN as int)
    }
}

/// Relies on content_inspector::inspect and ContentType::is_binary: a byte
/// order mark means text; otherwise a NUL byte in the first 1024 bytes, or a
/// leading `%PDF` or `\x89PNG`, means binary.
#[verifier::external_body]
fn inspect_is_binary(buf: &[u8]) -> (r: bool)
    ensures
        r == sniffs_binary(buf@),
{
    content_inspector::inspect(buf).is_binary()
}

/// The rule this library classifies by: a NUL byte among the first
/// `SAMPLE_LEN` bytes always means binary, whatever mark the content opens
/// with; otherwise the content sniffing rule decides on the sample.
pub open spec fn is_binary_sample(b: Seq<u8>) -> bool {
    has_nul_in_sample(b) || sniffs_binary(sample_of(b))
}

/// Whether `head` holds a NUL byte among its first `SAMPLE_LEN` bytes.
fn has_nul(head: &[u8]) -> (r: bool)
    ensures
        r == has_nul_in_sample(head@),
{
    let mut i: usize = 0;
    while i < head.len() && i < SAMPLE_LEN
        invariant
            i <= head@.len(),
            i <= SAMPLE_LEN,
            forall|j: int| 0 <= j < i ==> head@[j] != 0u8,
        decreases head@.len() - i,
    {
        if head[i] == 0u8 {
            return true;
        }
        i = i + 1;
    }
    false
}

/// Whether content whose leading bytes are `head` is binary. Only the
/// first `SAMPLE_LEN` bytes are looked at.
pub fn is_binary_content(head: &[u8]) -> (r: bool)
    ensures
        r == is_binary_sample(head@),
{
    if has_nul(head) {
        return true;
    }
    if head.len() <= SAMPLE_LEN {
        inspect_is_binary(head)
    } else {
        let sample = slice_subrange(head, 0, SAMPLE_LEN);
        inspect_is_binary(sample)
    }
}

/// Whether a file is searched: its leading bytes were read (`Some`) and are
/// not binary. A file that could not be read counts as binary.
pub fn is_text_file(head: Option<&[u8]>) -> (r: bool)
    ensures
        r == match head {
            Some(b) => !is_binary_sample(b@),
            None => false,
        },
{
    match head {
        Some(b) => !is_binary_content(b),
        None => false,
    }
}

/// A NUL byte among the first `SAMPLE_LEN` bytes makes content binary, and
/// so not a text file.
pub proof fn lemma_nul_byte_is_binary(b: Seq<u8>, i: int)
    requires
        0 <= i < b.len(),
        i < SAMPLE_LEN,
        b[i] == 0u8,
    ensures
        is_binary_sample(b),
{
}

} // verus!
