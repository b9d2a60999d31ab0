//! A validation failure located in the source text, and its message.

use vstd::prelude::*;
use vstd::string::StringSliceAdditionalSpecFns;
use vstd::utf8::*;
use crate::kind::{category_line, push_category_line, ErrorKind};
use crate::text::{decimal, push_usize};

verus! {

/// Whether byte `c` ends a line: a line feed or a carriage return.
pub open spec fn is_line_break(c: u8) -> bool {
    c == 10 || c == 13
}

/// The index of the first line break in `b`, or its length where there is none.
pub open spec fn line_end(b: Seq<u8>) -> nat
    decreases b.len(),
{
    if b.len() == 0 || is_line_break(b[0]) {
        0
    } else {
        1 + line_end(b.drop_first())
    }
}

/// The bytes of `b` before its first line break.
pub open spec fn first_line(b: Seq<u8>) -> Seq<u8> {
    b.take(line_end(b) as int)
}

/// The clause that locates a failure at byte `offset` of the source bytes
/// `src`: the end of input, or an excerpt of the rest of the line that
/// starts there, with a caret under its start.
pub open spec fn location_clause(src: Seq<u8>, offset: nat) -> Seq<char> {
    if offset == src.len() {
        " caused at byte offset "@ + decimal(offset) + " (end of input)"@
    } else {
        " caused at byte offset "@ + decimal(offset) + "\n\n ... "@
            + decode_utf8(first_line(src.subrange(offset as int, src.len() as int)))
            + "\n     ^\n     starts from here"@
    }
}

/// The message of a failure of kind `k` at byte `offset` of the source bytes `src`.
pub open spec fn message(k: ErrorKind, src: Seq<u8>, offset: nat) -> Seq<char> {
    category_line(k) + location_clause(src, offset)
}

/// The first line break of `b` lies at `line_end(b)`, and none before it.
pub proof fn lemma_line_end(b: Seq<u8>)
    ensures
        line_end(b) <= b.len(),
        forall|j: int| 0 <= j < line_end(b) ==> !is_line_break(#[trigger] b[j]),
        line_end(b) == b.len() || is_line_break(b[line_end(b) as int]),
    decreases b.len(),
{
    if b.len() > 0 && !is_line_break(b[0]) {
        let t = b.drop_first();
        lemma_line_end(t);
        assert forall|j: int| 0 <= j < line_end(b) implies !is_line_break(#[trigger] b[j]) by {
            if j > 0 {
                assert(b[j] == t[j - 1]);
            }
        }
    }
}

/// `line_end` is the index that the two properties of `lemma_line_end` describe.
proof fn lemma_line_end_at(b: Seq<u8>, i: int)
    requires
        0 <= i <= b.len(),
        forall|j: int| 0 <= j < i ==> !is_line_break(#[trigger] b[j]),
        i == b.len() || is_line_break(b[i]),
    ensures
        line_end(b) == i,
    decreases i,
{
    if i > 0 {
        let t = b.drop_first();
        assert(!is_line_break(b[0]));
        assert forall|j: int| 0 <= j < i - 1 implies !is_line_break(#[trigger] t[j]) by {
            assert(t[j] == b[j + 1]);
        }
        lemma_line_end_at(t, i - 1);
    }
}

/// A validation failure: its kind, and the byte offset in the source text
/// at which it was found.
#[derive(Debug)]
pub struct Error<'a> {
    kind: ErrorKind,
    source: &'a str,
    offset: usize,
}

impl<'a> Error<'a> {
    /// The kind of the failure.
    pub closed spec fn spec_kind(&self) -> ErrorKind {
        self.kind
    }

    /// The source text that the failure lies in.
    pub closed spec fn spec_source(&self) -> &'a str {
        self.source
    }

    /// The byte offset of the failure in the source text.
    pub closed spec fn spec_offset(&self) -> nat {
        self.offset as nat
    }

    /// The offset falls on a character boundary of the source, or at its end.
    pub open spec fn wf(&self) -> bool {
        &&& self.spec_offset() <= self.spec_source().spec_bytes().len()
        &&& is_char_boundary(self.spec_source().spec_bytes(), self.spec_offset() as int)
    }

    /// A failure of kind `kind` at byte `offset` of `source`.
    pub fn new(kind: ErrorKind, offset: usize, source: &'a str) -> (r: Box<Self>)
        requires
            offset <= source.spec_bytes().len(),
            is_char_boundary(source.spec_bytes(), offset as int),
        ensures
            r.spec_kind() == kind,
            r.spec_offset() == offset,
            r.spec_source() == source,
            r.wf(),
    {
        Box::new(Error { kind, source, offset })
    }

    /// The kind of the failure.
    pub fn kind(&self) -> (r: &ErrorKind)
        ensures
            *r == self.spec_kind(),
    {
        &self.kind
    }

    /// The byte offset of the failure in the source text.
    pub fn offset(&self) -> (r: usize)
        ensures
            r == self.spec_offset(),
    {
        self.offset
    }

    /// The source text that the failure lies in.
    pub fn source(&self) -> (r: &'a str)
        ensures
            r == self.spec_source(),
    {
        self.source
    }

    /// The message that explains the failure and points at its place in the
    /// source text.
    pub fn render(&self) -> (r: String)
        requires
            self.wf(),
        ensures
            r@ == message(self.spec_kind(), self.spec_source().spec_bytes(), self.spec_offset()),
    {
        let mut out = String::new();
        push_category_line(&mut out, &self.kind);
        push_location_clause(&mut out, self.source, self.offset);
        out
    }
}


/// Appends to `out` the clause that locates a failure at byte `offset` of `source`.
fn push_location_clause(out: &mut String, source: &str, offset: usize)
    requires
        offset <= source.spec_bytes().len(),
        is_char_boundary(source.spec_bytes(), offset as int),
    ensures
        final(out)@ == old(out)@ + location_clause(source.spec_bytes(), offset as nat),
{
    let ghost src = source.spec_bytes();
    if offset == source.as_bytes().len() {
        out.append(" caused at byte offset ");
        push_usize(out, offset);
        out.append(" (end of input)");
    } else {
        let (_, rest) = source.split_at(offset);
        let bytes: &[u8] = rest.as_bytes();
        let ghost tail = src.subrange(offset as int, src.len() as int);
        assert(bytes@ == tail);
        let mut end: usize = 0;
        while end < bytes.len() && bytes[end] != 10u8 && bytes[end] != 13u8
            invariant
                end <= bytes@.len(),
                forall|j: int| 0 <= j < end ==> !is_line_break(#[trigger] bytes@[j]),
            decreases bytes@.len() - end,
        {
            end = end + 1;
        }
        proof {
            lemma_line_end_at(tail, end as int);
            encode_utf8_valid_utf8(rest@);
            if end < bytes.len() {
                is_char_boundary_iff_not_is_continuation_byte(tail, end as int);
            } else {
                is_char_boundary_start_end_of_seq(tail);
            }
        }
        let (line, _) = rest.split_at(end);
        proof {
            encode_utf8_decode_utf8(line@);
            assert(line.spec_bytes() =~= first_line(tail));
            assert(decode_utf8(first_line(tail)) == line@);
        }
        out.append(" caused at byte offset ");
        push_usize(out, offset);
        out.append("\n\n ... ");
        out.append(line);
        out.append("\n     ^\n     starts from here");
        assert(out@ =~= old(out)@ + location_clause(src, offset as nat));
    }
    assert(out@ =~= old(out)@ + location_clause(src, offset as nat));
}

/// What a validation step returns: its value, or the failure that stopped it.
pub type Result<'a, T> = core::result::Result<T, Box<Error<'a>>>;

} // verus!
