//! The closed set of validation failures, each with the data that its
//! message needs, and the first sentence of that message.

use vstd::prelude::*;
use wain_ast::ValType;
use crate::text::{decimal, ordinal, push_position, push_u32, push_u8, push_usize};

verus! {

/// wain_ast's value type, declared with its four fieldless variants visible,
/// so that contracts can tell them apart.
#[verifier::external_type_specification]
pub struct ExValType(ValType);

/// The short name of a value type ("i32", "i64", "f32", "f64").
pub open spec fn val_type_name(t: ValType) -> Seq<char> {
    match t {
        ValType::I32 => seq!['i', '3', '2'],
        ValType::I64 => seq!['i', '6', '4'],
        ValType::F32 => seq!['f', '3', '2'],
        ValType::F64 => seq!['f', '6', '4'],
    }
}

/// Relies on wain_ast's `AsRef<str>` for `ValType`, which maps each variant
/// to its short name.
#[verifier::external_body]
fn val_type_str(t: &ValType) -> (r: &str)
    ensures
        r@ == val_type_name(*t),
{
    t.as_ref()
}


/// What went wrong during validation. Each variant carries exactly the data
/// that its message needs.
#[derive(Debug, PartialEq)]
pub enum ErrorKind {
    /// An index `idx` of an entity of kind `what` is not below `upper`.
    IndexOutOfBounds { idx: u32, upper: usize, what: &'static str },
    /// A function type returns more than one value.
    MultipleReturnTypes(Vec<ValType>),
    /// A function has fewer locals than parameters.
    TooFewFuncLocalsForParams { locals: usize, params: usize },
    /// The type of parameter `idx` (counted from 0) differs from the type of
    /// the local that stands for it. The message counts parameters from 1.
    ParamTypeMismatchWithLocal { idx: usize, param: ValType, local: ValType },
    /// An import names an unknown module, or an unknown name in module "env".
    UnknownImport { mod_name: String, name: String },
    /// An operand of instruction `op` has the wrong type.
    TypeMismatch { op: &'static str, expected: ValType, actual: ValType },
    /// Instruction `op` needs an operand, but the control frame that started
    /// at byte `frame_start` has none left above `op_stack[idx_in_op_stack]`.
    CtrlFrameEmpty { op: &'static str, frame_start: usize, idx_in_op_stack: usize },
    /// Instruction `op` needs a label, but the label stack is empty.
    LabelStackEmpty { op: &'static str },
    /// An instruction sets global `idx` of type `ty`, which is immutable.
    SetImmutableGlobal { ty: ValType, idx: u32 },
    /// An alignment of `2^align` bytes is larger than a value of `bits` bits.
    TooLargeAlign { align: u32, bits: u8 },
}

/// The short names of `tys`, separated by ", ".
pub open spec fn joined_type_names(tys: Seq<ValType>) -> Seq<char>
    decreases tys.len(),
{
    if tys.len() == 0 {
        seq![]
    } else if tys.len() == 1 {
        val_type_name(tys[0])
    } else {
        joined_type_names(tys.drop_last()) + ", "@ + val_type_name(tys.last())
    }
}

/// The sentence that explains a failure of kind `k`.
pub open spec fn category_line(k: ErrorKind) -> Seq<char> {
    match k {
        ErrorKind::IndexOutOfBounds { idx, upper, what } =>
            what@ + " index "@ + decimal(idx as nat) + " out of bounds 0 <= idx < "@
                + decimal(upper as nat),
        ErrorKind::MultipleReturnTypes(tys) =>
            "multiple return types are not allowed for now but got ["@
                + joined_type_names(tys@) + "]"@,
        ErrorKind::TooFewFuncLocalsForParams { locals, params } =>
            "function has "@ + decimal(params as nat) + " params > "@ + decimal(locals as nat)
                + " locals"@,
        ErrorKind::ParamTypeMismatchWithLocal { idx, param, local } =>
            "type "@ + val_type_name(param) + " parameter "@ + ordinal(idx as nat + 1)
                + " does not match to type of respective local "@ + val_type_name(local),
        ErrorKind::UnknownImport { mod_name, name } =>
            if mod_name@ != "env"@ {
                "unknown module name '"@ + mod_name@
                    + "'. valid module name is currently only 'env'"@
            } else {
                "no exported name '"@ + name@
                    + "' in module 'env'. currently only 'print' is exported"@
            },
        ErrorKind::TypeMismatch { op, expected, actual } =>
            "type does not match at '"@ + op@ + "': expected "@ + val_type_name(expected)
                + " but got "@ + val_type_name(actual),
        ErrorKind::CtrlFrameEmpty { op, frame_start, idx_in_op_stack } =>
            if idx_in_op_stack == 0 {
                "operand stack cannot be empty at '"@ + op@
                    + "' instruction while validating instruction sequence starting at offset "@
                    + decimal(frame_start as nat)
            } else {
                "empty control frame cannot be empty at '"@ + op@
                    + "' instruction. the frame started at byte offset "@
                    + decimal(frame_start as nat)
                    + " and top of control frame is op_stack["@
                    + decimal(idx_in_op_stack as nat) + "]"@
            },
        ErrorKind::LabelStackEmpty { op } =>
            "label stack for control instructions is unexpectedly empty at '"@ + op@
                + "' instruction"@,
        ErrorKind::SetImmutableGlobal { ty, idx } =>
            val_type_name(ty) + " value cannot be set to immutable global variable "@
                + decimal(idx as nat),
        ErrorKind::TooLargeAlign { align, bits } =>
            "align "@ + decimal(align as nat) + " must not be larger than "@
                + decimal(bits as nat) + "bits / 8"@,
    }
}

/// Whether `s` is "env", the one module that imports may name.
fn is_env_module(s: &String) -> (r: bool)
    ensures
        r == (s@ == "env"@),
{
    proof {
        reveal_strlit("env");
    }
    let t: &str = s.as_str();
    if t.unicode_len() != 3 {
        return false;
    }
    let r = t.get_char(0) == 'e' && t.get_char(1) == 'n' && t.get_char(2) == 'v';
    if r {
        assert(t@ =~= "env"@);
    } else {
        assert(t@ != "env"@) by {
            if t@ == "env"@ {
                assert(t@[0] == 'e' && t@[1] == 'n' && t@[2] == 'v');
            }
        }
    }
    r
}

/// Appends the short names of `tys`, separated by ", ", to `out`.
fn push_type_names(out: &mut String, tys: &Vec<ValType>)
    ensures
        final(out)@ == old(out)@ + joined_type_names(tys@),
{
    let mut i: usize = 0;
    while i < tys.len()
        invariant
            i <= tys@.len(),
            out@ == old(out)@ + joined_type_names(tys@.take(i as int)),
        decreases tys@.len() - i,
    {
        if i > 0 {
            out.append(", ");
        }
        out.append(val_type_str(&tys[i]));
        proof {
            let next = tys@.take(i + 1);
            assert(next.drop_last() =~= tys@.take(i as int));
            assert(next.last() == tys@[i as int]);
            if i == 0 {
                assert(tys@.take(0) =~= Seq::<ValType>::empty());
            }
        }
        i = i + 1;
        assert(out@ =~= old(out)@ + joined_type_names(tys@.take(i as int)));
    }
    assert(tys@.take(i as int) =~= tys@);
}

/// Appends to `out` the sentence that explains a failure of kind `k`.
pub fn push_category_line(out: &mut String, k: &ErrorKind)
    ensures
        final(out)@ == old(out)@ + category_line(*k),
{
    match k {
        ErrorKind::IndexOutOfBounds { idx, upper, what } => {
            out.append(what);
            out.append(" index ");
            push_u32(out, *idx);
            out.append(" out of bounds 0 <= idx < ");
            push_usize(out, *upper);
        },
        ErrorKind::MultipleReturnTypes(tys) => {
            out.append("multiple return types are not allowed for now but got [");
            push_type_names(out, tys);
            out.append("]");
        },
        ErrorKind::TooFewFuncLocalsForParams { locals, params } => {
            out.append("function has ");
            push_usize(out, *params);
            out.append(" params > ");
            push_usize(out, *locals);
            out.append(" locals");
        },
        ErrorKind::ParamTypeMismatchWithLocal { idx, param, local } => {
            out.append("type ");
            out.append(val_type_str(param));
            out.append(" parameter ");
            push_position(out, *idx);
            out.append(" does not match to type of respective local ");
            out.append(val_type_str(local));
        },
        ErrorKind::UnknownImport { mod_name, name } => {
            if !is_env_module(mod_name) {
                out.append("unknown module name '");
                out.append(mod_name.as_str());
                out.append("'. valid module name is currently only 'env'");
            } else {
                out.append("no exported name '");
                out.append(name.as_str());
                out.append("' in module 'env'. currently only 'print' is exported");
            }
        },
        ErrorKind::TypeMismatch { op, expected, actual } => {
            out.append("type does not match at '");
            out.append(op);
            out.append("': expected ");
            out.append(val_type_str(expected));
            out.append(" but got ");
            out.append(val_type_str(actual));
        },
        ErrorKind::CtrlFrameEmpty { op, frame_start, idx_in_op_stack } => {
            if *idx_in_op_stack == 0 {
                out.append("operand stack cannot be empty at '");
                out.append(op);
                out.append(
                    "' instruction while validating instruction sequence starting at offset ",
                );
                push_usize(out, *frame_start);
            } else {
                out.append("empty control frame cannot be empty at '");
                out.append(op);
                out.append("' instruction. the frame started at byte offset ");
                push_usize(out, *frame_start);
                out.append(" and top of control frame is op_stack[");
                push_usize(out, *idx_in_op_stack);
                out.append("]");
            }
        },
        ErrorKind::LabelStackEmpty { op } => {
            out.append("label stack for control instructions is unexpectedly empty at '");
            out.append(op);
            out.append("' instruction");
        },
        ErrorKind::SetImmutableGlobal { ty, idx } => {
            out.append(val_type_str(ty));
            out.append(" value cannot be set to immutable global variable ");
            push_u32(out, *idx);
        },
        ErrorKind::TooLargeAlign { align, bits } => {
            out.append("align ");
            push_u32(out, *align);
            out.append(" must not be larger than ");
            push_u8(out, *bits);
            out.append("bits / 8");
        },
    }
    assert(out@ =~= old(out)@ + category_line(*k));
}

} // verus!
