//! What holds of every message: the laws of rendering, proved over the
//! spec functions that the rendering functions' contracts use.

use vstd::prelude::*;
use vstd::string::StringSliceAdditionalSpecFns;
use vstd::utf8::*;
use crate::error::{first_line, is_line_break, lemma_line_end, line_end, message, Error};
use crate::kind::{category_line, ErrorKind};
use crate::text::{decimal, ordinal};

verus! {

/// A message depends on the failure's kind, offset and source text alone:
/// two failures that agree on these render to the same string.
pub proof fn lemma_message_is_function_of_error(a: &Error, b: &Error)
    requires
        a.spec_kind() == b.spec_kind(),
        a.spec_offset() == b.spec_offset(),
        a.spec_source()@ == b.spec_source()@,
    ensures
        message(a.spec_kind(), a.spec_source().spec_bytes(), a.spec_offset())
            == message(b.spec_kind(), b.spec_source().spec_bytes(), b.spec_offset()),
{
}

/// An ordinal is the number in decimal followed by a suffix chosen by its
/// last digit: 1 gives "st", 2 gives "nd", 3 gives "rd", any other "th".
pub proof fn lemma_ordinal_suffix(n: nat)
    ensures
        n % 10 == 1 ==> ordinal(n) == decimal(n) + "st"@,
        n % 10 == 2 ==> ordinal(n) == decimal(n) + "nd"@,
        n % 10 == 3 ==> ordinal(n) == decimal(n) + "rd"@,
        n % 10 != 1 && n % 10 != 2 && n % 10 != 3 ==> ordinal(n) == decimal(n) + "th"@,
{
    reveal_strlit("st");
    reveal_strlit("nd");
    reveal_strlit("rd");
    reveal_strlit("th");
    assert("st"@ =~= seq!['s', 't']);
    assert("nd"@ =~= seq!['n', 'd']);
    assert("rd"@ =~= seq!['r', 'd']);
    assert("th"@ =~= seq!['t', 'h']);
}

/// At the end of the input, the message says so after the category line
/// and quotes no source text.
pub proof fn lemma_end_of_input(k: ErrorKind, src: Seq<u8>)
    ensures
        message(k, src, src.len()) == category_line(k) + " caused at byte offset "@
            + decimal(src.len()) + " (end of input)"@,
{
}

/// Before the end of the input, the message quotes the source from the
/// offset up to, and not including, the first line feed or carriage return
/// after it, or up to the end of the input where there is none.
pub proof fn lemma_excerpt_stops_at_line_break(k: ErrorKind, src: Seq<u8>, offset: nat)
    requires
        offset < src.len(),
    ensures
        ({
            let rest = src.subrange(offset as int, src.len() as int);
            let line = first_line(rest);
            &&& line.len() <= rest.len()
            &&& line == rest.take(line.len() as int)
            &&& forall|j: int| 0 <= j < line.len() ==> !is_line_break(#[trigger] line[j])
            &&& line.len() == rest.len() || is_line_break(rest[line.len() as int])
            &&& message(k, src, offset) == category_line(k) + " caused at byte offset "@
                + decimal(offset) + "\n\n ... "@ + decode_utf8(line)
                + "\n     ^\n     starts from here"@
        }),
{
    let rest = src.subrange(offset as int, src.len() as int);
    lemma_line_end(rest);
    let line = first_line(rest);
    assert forall|j: int| 0 <= j < line.len() implies !is_line_break(#[trigger] line[j]) by {
        assert(line[j] == rest[j]);
    }
}

/// A line feed or carriage return among characters shows as a line-break
/// byte in their UTF-8 encoding.
proof fn lemma_break_char_encodes_break(s: Seq<char>, i: int)
    requires
        0 <= i < s.len(),
        s[i] == '\n' || s[i] == '\r',
    ensures
        exists|p: int| 0 <= p < encode_utf8(s).len() && is_line_break(#[trigger] encode_utf8(s)[p]),
    decreases s.len(),
{
    let head = encode_scalar(s[0] as u32);
    let t = s.drop_first();
    assert(encode_utf8(s) == head + encode_utf8(t));
    if i == 0 {
        let v = s[0] as u32;
        assert(v == 10 || v == 13);
        assert(v & 0x7f == v) by (bit_vector)
            requires
                v == 10 || v == 13,
        ;
        assert(head == seq![v as u8]);
        assert(encode_utf8(s)[0] == head[0]);
    } else {
        lemma_break_char_encodes_break(t, i - 1);
        let p = choose|p: int| 0 <= p < encode_utf8(t).len() && is_line_break(#[trigger] encode_utf8(t)[p]);
        assert(encode_utf8(s)[head.len() + p] == encode_utf8(t)[p]);
    }
}

/// Bytes without a line-break byte decode to characters without a line feed
/// or carriage return.
proof fn lemma_no_break_bytes_no_break_chars(b: Seq<u8>)
    requires
        valid_utf8(b),
        forall|j: int| 0 <= j < b.len() ==> !is_line_break(#[trigger] b[j]),
    ensures
        forall|i: int| 0 <= i < decode_utf8(b).len()
            ==> #[trigger] decode_utf8(b)[i] != '\n' && decode_utf8(b)[i] != '\r',
{
    let s = decode_utf8(b);
    decode_utf8_encode_utf8(b);
    assert forall|i: int| 0 <= i < s.len() implies #[trigger] s[i] != '\n' && s[i] != '\r' by {
        if s[i] == '\n' || s[i] == '\r' {
            lemma_break_char_encodes_break(s, i);
        }
    }
}

/// A valid byte sequence that starts with a line-break byte decodes to
/// characters that start with a line feed or carriage return.
proof fn lemma_break_byte_decodes_to_break_char(b: Seq<u8>)
    requires
        valid_utf8(b),
        b.len() > 0,
        is_line_break(b[0]),
    ensures
        decode_utf8(b).len() > 0,
        decode_utf8(b)[0] == '\n' || decode_utf8(b)[0] == '\r',
{
    let x = b[0];
    assert(x & 0x7f == x) by (bit_vector)
        requires
            x == 10 || x == 13,
    ;
    assert(decode_first_scalar(b) == x as u32);
    if x == 10 {
        char_u32_cast('\n', 10u32);
    } else {
        char_u32_cast('\r', 13u32);
    }
}

/// On the characters of the source, the quoted text is the longest start of
/// the rest of the source, from the offset on, without a line feed or
/// carriage return: what follows it, if anything, starts with one.
pub proof fn lemma_excerpt_is_rest_of_line(src: Seq<u8>, offset: nat)
    requires
        valid_utf8(src),
        is_char_boundary(src, offset as int),
        offset < src.len(),
    ensures
        ({
            let rest = src.subrange(offset as int, src.len() as int);
            let quoted = decode_utf8(first_line(rest));
            let after = decode_utf8(rest).subrange(quoted.len() as int, decode_utf8(rest).len() as int);
            &&& decode_utf8(rest) == quoted + after
            &&& forall|i: int| 0 <= i < quoted.len()
                ==> #[trigger] quoted[i] != '\n' && quoted[i] != '\r'
            &&& after.len() == 0 || after[0] == '\n' || after[0] == '\r'
        }),
{
    let rest = src.subrange(offset as int, src.len() as int);
    valid_utf8_split(src, offset as int);
    lemma_line_end(rest);
    let e = line_end(rest) as int;
    if e < rest.len() {
        is_char_boundary_iff_not_is_continuation_byte(rest, e);
    } else {
        is_char_boundary_start_end_of_seq(rest);
    }
    decode_utf8_split(rest, e);
    valid_utf8_split(rest, e);
    let line = rest.subrange(0, e);
    let next = rest.subrange(e, rest.len() as int);
    assert(first_line(rest) == line);
    assert forall|j: int| 0 <= j < line.len() implies !is_line_break(#[trigger] line[j]) by {
        assert(line[j] == rest[j]);
    }
    lemma_no_break_bytes_no_break_chars(line);
    let quoted = decode_utf8(line);
    let all = decode_utf8(rest);
    assert(all.subrange(quoted.len() as int, all.len() as int) =~= decode_utf8(next));
    if e < rest.len() {
        assert(next[0] == rest[e]);
        lemma_break_byte_decodes_to_break_char(next);
    } else {
        assert(next.len() == 0);
    }
}

/// An unknown import is explained by its module name alone when that is not
/// "env", and by the imported name alone when it is.
pub proof fn lemma_unknown_import(mod_name: String, name: String)
    ensures
        mod_name@ != "env"@ ==> category_line(ErrorKind::UnknownImport { mod_name, name })
            == "unknown module name '"@ + mod_name@
            + "'. valid module name is currently only 'env'"@,
        mod_name@ == "env"@ ==> category_line(ErrorKind::UnknownImport { mod_name, name })
            == "no exported name '"@ + name@
            + "' in module 'env'. currently only 'print' is exported"@,
{
}

/// An empty control frame is explained as an empty operand stack when the
/// frame starts at the bottom of the operand stack, and otherwise names the
/// index of the frame's top in the operand stack.
pub proof fn lemma_ctrl_frame_empty(op: &'static str, frame_start: usize, idx_in_op_stack: usize)
    ensures
        idx_in_op_stack == 0 ==> category_line(
            ErrorKind::CtrlFrameEmpty { op, frame_start, idx_in_op_stack },
        ) == "operand stack cannot be empty at '"@ + op@
            + "' instruction while validating instruction sequence starting at offset "@
            + decimal(frame_start as nat),
        idx_in_op_stack != 0 ==> category_line(
            ErrorKind::CtrlFrameEmpty { op, frame_start, idx_in_op_stack },
        ) == "empty control frame cannot be empty at '"@ + op@
            + "' instruction. the frame started at byte offset "@ + decimal(frame_start as nat)
            + " and top of control frame is op_stack["@ + decimal(idx_in_op_stack as nat)
            + "]"@,
{
}

} // verus!
