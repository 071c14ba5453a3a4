//! The line-oriented clip container.
//!
//! A clip is a text: the first line is the header record, every further
//! line is one frame record. Records are binary; each is written in
//! base64, a frame after its frame number and a comma. Stopping a clip
//! replaces the first line and leaves every other line as it is.

use crate::text::{chars_of, decimal, decimal_digits};
use vstd::prelude::*;
use vstd::string::*;

verus! {

/// The longest record that can be written: half of the address space.
pub const MAX_RECORD_LEN: usize = usize::MAX / 2;

/// The standard base64 text of a run of bytes, with padding.
pub uninterp spec fn base64_text(bytes: Seq<u8>) -> Seq<char>;

/// Whether a character may occur in base64 text: a letter, a digit, a
/// plus sign, a slash or the padding sign.
pub open spec fn is_base64_char(c: char) -> bool {
    ||| ('A' <= c && c <= 'Z')
    ||| ('a' <= c && c <= 'z')
    ||| ('0' <= c && c <= '9')
    ||| c == '+'
    ||| c == '/'
    ||| c == '='
}

/// The failure of `base64` to read a text.
#[verifier::external_type_specification]
#[verifier::external_body]
pub struct ExDecodeError(base64::DecodeError);

/// Writes bytes in base64 with `Engine::encode` of
/// `base64::engine::general_purpose::STANDARD`. The text depends on the
/// bytes alone and holds only characters of the base64 alphabet and the
/// padding sign.
#[verifier::external_body]
pub(crate) fn base64_encode(bytes: &Vec<u8>) -> (text: String)
    requires
        bytes@.len() <= MAX_RECORD_LEN,
    ensures
        text@ == base64_text(bytes@),
        forall|i: int| 0 <= i < text@.len() ==> is_base64_char(#[trigger] text@[i]),
{
    base64::Engine::encode(&base64::engine::general_purpose::STANDARD, bytes)
}

/// Reads base64 with `Engine::decode` of
/// `base64::engine::general_purpose::STANDARD`. The text that `encode`
/// writes for some bytes is read back as those bytes; of any other text
/// nothing is claimed.
#[verifier::external_body]
pub(crate) fn base64_decode(text: &str) -> (r: Result<Vec<u8>, base64::DecodeError>)
    ensures
        forall|bytes: Seq<u8>|
            text@ == #[trigger] base64_text(bytes) ==> r is Ok && r->Ok_0@ == bytes,
{
    base64::Engine::decode(&base64::engine::general_purpose::STANDARD, text)
}

/// Why a clip could not be read.
#[derive(Clone, Copy, Debug, PartialEq, Eq, Structural)]
pub enum ContainerError {
    /// The clip holds no line at all.
    Empty,
    /// The first line is not base64.
    HeaderNotBase64,
    /// The record is too long to be written.
    RecordTooLong,
}

/// The position of the first line feed of a text, or its length where it
/// holds none.
pub open spec fn first_line_end(content: Seq<char>) -> int
    decreases content.len(),
{
    if content.len() == 0 {
        0
    } else if content[0] == '\n' {
        0
    } else {
        1 + first_line_end(content.drop_first())
    }
}

/// The first line of a text, without its line feed.
pub open spec fn header_text(content: Seq<char>) -> Seq<char> {
    content.subrange(0, first_line_end(content))
}

/// What follows the first line of a text and its line feed.
pub open spec fn frame_lines(content: Seq<char>) -> Seq<char> {
    if first_line_end(content) < content.len() {
        content.subrange(first_line_end(content) + 1, content.len() as int)
    } else {
        Seq::empty()
    }
}

/// The line of a header record.
pub open spec fn spec_header_line(header: Seq<u8>) -> Seq<char> {
    base64_text(header) + seq!['\n']
}

/// The line of a frame record.
pub open spec fn spec_frame_line(frame_number: u64, frame: Seq<u8>) -> Seq<char> {
    decimal_digits(frame_number as nat) + seq![','] + base64_text(frame) + seq!['\n']
}

/// The first line end lies inside the text, no line feed stands before it,
/// and a line feed stands at it unless it is the end of the text.
pub proof fn lemma_first_line_end(content: Seq<char>)
    ensures
        0 <= first_line_end(content) <= content.len(),
        forall|i: int| 0 <= i < first_line_end(content) ==> content[i] != '\n',
        first_line_end(content) < content.len() ==> content[first_line_end(content)] == '\n',
    decreases content.len(),
{
    if content.len() > 0 && content[0] != '\n' {
        let rest = content.drop_first();
        lemma_first_line_end(rest);
        assert forall|i: int| 0 <= i < first_line_end(content) implies content[i] != '\n' by {
            if i > 0 {
                assert(rest[i - 1] == content[i]);
            }
        }
        if first_line_end(content) < content.len() {
            assert(rest[first_line_end(rest)] == content[first_line_end(content)]);
        }
    }
}

/// A position that holds a line feed, with none before it, is the first
/// line end.
pub proof fn lemma_first_line_end_is(content: Seq<char>, at: int)
    requires
        0 <= at <= content.len(),
        forall|i: int| 0 <= i < at ==> content[i] != '\n',
        at < content.len() ==> content[at] == '\n',
    ensures
        first_line_end(content) == at,
    decreases content.len(),
{
    if content.len() > 0 && at > 0 {
        let rest = content.drop_first();
        assert(content[0] != '\n');
        assert forall|i: int| 0 <= i < at - 1 implies rest[i] != '\n' by {
            assert(rest[i] == content[i + 1]);
        }
        if at - 1 < rest.len() {
            assert(rest[at - 1] == content[at]);
        }
        lemma_first_line_end_is(rest, at - 1);
    }
}

fn find_line_end(chars: &Vec<char>) -> (at: usize)
    ensures
        at == first_line_end(chars@),
        at <= chars@.len(),
{
    let mut i: usize = 0;
    while i < chars.len()
        invariant
            i <= chars@.len(),
            forall|k: int| 0 <= k < i ==> chars@[k] != '\n',
        decreases chars@.len() - i,
    {
        if chars[i] == '\n' {
            proof {
                lemma_first_line_end_is(chars@, i as int);
            }
            return i;
        }
        i = i + 1;
    }
    proof {
        lemma_first_line_end_is(chars@, i as int);
    }
    i
}

/// The line that opens a clip with the given header record.
pub fn header_line(header: &Vec<u8>) -> (r: Result<String, ContainerError>)
    ensures
        header@.len() <= MAX_RECORD_LEN ==> r is Ok && r->Ok_0@ == spec_header_line(header@),
        header@.len() > MAX_RECORD_LEN ==> r == Err::<String, ContainerError>(
            ContainerError::RecordTooLong,
        ),
{
    if header.len() > MAX_RECORD_LEN {
        return Err(ContainerError::RecordTooLong);
    }
    proof {
        reveal_strlit("\n");
    }
    let mut line = base64_encode(header);
    line.append("\n");
    assert("\n"@ =~= seq!['\n']);
    Ok(line)
}

/// The line that appends a frame record to a clip.
pub fn frame_line(frame_number: u64, frame: &Vec<u8>) -> (r: Result<String, ContainerError>)
    ensures
        frame@.len() <= MAX_RECORD_LEN ==> r is Ok && r->Ok_0@ == spec_frame_line(
            frame_number,
            frame@,
        ),
        frame@.len() > MAX_RECORD_LEN ==> r == Err::<String, ContainerError>(
            ContainerError::RecordTooLong,
        ),
{
    if frame.len() > MAX_RECORD_LEN {
        return Err(ContainerError::RecordTooLong);
    }
    proof {
        reveal_strlit("\n");
        reveal_strlit(",");
    }
    let mut line = decimal(frame_number);
    line.append(",");
    let text = base64_encode(frame);
    line.append(text.as_str());
    line.append("\n");
    assert("\n"@ =~= seq!['\n']);
    assert(","@ =~= seq![',']);
    Ok(line)
}

/// Reads the header record of a clip. A clip whose first line was written
/// for some record yields that record.
pub fn stored_header(content: &str) -> (r: Result<Vec<u8>, ContainerError>)
    ensures
        content@.len() == 0 ==> r == Err::<Vec<u8>, ContainerError>(ContainerError::Empty),
        content@.len() > 0 ==> (r is Ok || r == Err::<Vec<u8>, ContainerError>(
            ContainerError::HeaderNotBase64,
        )),
        forall|header: Seq<u8>|
            content@.len() > 0 && header_text(content@) == #[trigger] base64_text(header) ==> r
                is Ok && r->Ok_0@ == header,
{
    let chars = chars_of(content);
    if chars.len() == 0 {
        return Err(ContainerError::Empty);
    }
    let end = find_line_end(&chars);
    let first = content.substring_char(0, end);
    match base64_decode(first) {
        Ok(bytes) => Ok(bytes),
        Err(_) => Err(ContainerError::HeaderNotBase64),
    }
}

/// Replaces the header record of a clip. The new first line is the line of
/// `header`; everything after the old first line is carried over unchanged,
/// so every frame record stays as it was written.
pub fn finalize(content: &str, header: &Vec<u8>) -> (r: Result<String, ContainerError>)
    ensures
        header@.len() > MAX_RECORD_LEN ==> r == Err::<String, ContainerError>(
            ContainerError::RecordTooLong,
        ),
        header@.len() <= MAX_RECORD_LEN ==> r is Ok && r->Ok_0@ == spec_header_line(header@)
            + frame_lines(content@) && header_text(r->Ok_0@) == base64_text(header@)
            && frame_lines(r->Ok_0@) == frame_lines(content@),
{
    if header.len() > MAX_RECORD_LEN {
        return Err(ContainerError::RecordTooLong);
    }
    proof {
        reveal_strlit("\n");
    }
    let chars = chars_of(content);
    let end = find_line_end(&chars);
    let text = base64_encode(header);
    let mut out = text.clone();
    out.append("\n");
    assert("\n"@ =~= seq!['\n']);
    if end < chars.len() {
        let rest = content.substring_char(end + 1, chars.len());
        out.append(rest);
    }
    proof {
        let encoded = base64_text(header@);
        assert(out@ =~= spec_header_line(header@) + frame_lines(content@));
        assert forall|i: int| 0 <= i < encoded.len() implies out@[i] != '\n' by {
            assert(out@[i] == text@[i]);
            assert(is_base64_char(text@[i]));
        }
        assert(out@[encoded.len() as int] == '\n');
        lemma_first_line_end_is(out@, encoded.len() as int);
        assert(header_text(out@) =~= encoded);
        assert(frame_lines(out@) =~= frame_lines(content@));
    }
    Ok(out)
}

} // verus!
