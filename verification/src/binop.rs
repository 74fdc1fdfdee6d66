use vstd::prelude::*;
use crate::diagnostic::{valid_mismatch_error, ErrorDetails, ErrorKind};
use crate::expr::{expr_wf, parse_left_expr, simple_operand_type, simple_operand_word, Expr};
use crate::literal::{is_bool_word, is_digit, is_ident_char, is_ident_word, is_number_word};
use crate::metadata::ParserMetadata;
use crate::scope::name_visible;
use crate::token::words_equal;
use crate::types::{Type, Typed};

verus! {

/// Consumes the literal operator token at the cursor and reports its source
/// position for diagnostics. Shared by the binary-operator productions, which
/// differ only in the operator lexeme, the result type and the comparison
/// they perform.
pub fn consume_operator(meta: &mut ParserMetadata, op: &Vec<char>) -> (r: Result<
    usize,
    ErrorDetails,
>)
    requires
        old(meta).wf(),
    ensures
        final(meta).wf(),
        final(meta).tokens == old(meta).tokens,
        final(meta).var_mem == old(meta).var_mem,
        r matches Ok(p) ==> old(meta).index < old(meta).tokens@.len()
            && old(meta).tokens@[old(meta).index as int].word@ == op@
            && p == old(meta).tokens@[old(meta).index as int].pos
            && final(meta).index == old(meta).index + 1,
        r matches Err(e) ==> final(meta).index == old(meta).index && (e.kind
            is UnexpectedToken || e.kind is EndOfInput) && (old(meta).index < old(
        meta).tokens@.len() ==> old(meta).tokens@[old(meta).index as int].word@ != op@),
        old(meta).index >= old(meta).tokens@.len() ==> (r matches Err(e) && e.kind
            is EndOfInput),
        old(meta).index < old(meta).tokens@.len() && old(meta).tokens@[old(
            meta,
        ).index as int].word@ != op@ ==> (r matches Err(e) && e.kind is UnexpectedToken),
{
    match meta.get_current_token() {
        None => Err(ErrorDetails::new(ErrorKind::EndOfInput, None)),
        Some(tok) => {
            let pos = tok.pos;
            let eq = words_equal(&tok.word, op);
            if eq {
                meta.increment_index();
                Ok(pos)
            } else {
                Err(ErrorDetails::new(ErrorKind::UnexpectedToken, Some(pos)))
            }
        },
    }
}

/// The inequality production: a left operand, the literal `!=`, a right
/// operand, and the requirement that both operands resolve to one type. Its
/// result type is fixed by the operator itself: inequality yields `Bool`
/// whatever the (matching) operand type is.
#[derive(Debug)]
pub struct Neq {
    pub left: Box<Expr>,
    pub right: Box<Expr>,
}

impl Typed for Neq {
    open spec fn resolved_type(&self) -> Type {
        Type::Bool
    }

    fn get_type(&self) -> (t: Type) {
        Type::Bool
    }
}

impl Neq {
    pub fn new() -> (n: Neq)
        ensures
            *n.left == Expr::Void,
            *n.right == Expr::Void,
    {
        Neq { left: Box::new(Expr::new()), right: Box::new(Expr::new()) }
    }

    /// Parses `left != right`. On success both operands resolved to the same
    /// type; a `TypeMismatch` failure names the two differing operand types
    /// and is anchored at the operator token.
    pub fn parse(&mut self, meta: &mut ParserMetadata) -> (r: Result<(), ErrorDetails>)
        requires
            old(meta).wf(),
        ensures
            final(meta).wf(),
            final(meta).tokens == old(meta).tokens,
            final(meta).var_mem == old(meta).var_mem,
            r matches Ok(()) ==> (*final(self).left).resolved_type() == (*final(
            self).right).resolved_type() && final(self).resolved_type() == Type::Bool && old(
                meta,
            ).index < final(meta).index <= final(meta).tokens@.len() && expr_wf(
                *final(self).left,
            ) && expr_wf(*final(self).right),
            r matches Ok(()) ==> (exists|m: int|
                old(meta).index <= m < final(meta).index && (#[trigger] old(
                    meta,
                ).tokens@[m]).word@ == seq!['!', '=']),
            r matches Err(e) ==> valid_mismatch_error(e),
            old(meta).index + 1 == old(meta).tokens@.len() && simple_operand_word(
                old(meta).tokens@[old(meta).index as int].word@,
                old(meta).var_mem.frames@,
            ) ==> (r matches Err(e) && e.kind is EndOfInput),
            old(meta).index < old(meta).tokens@.len() && is_ident_word(
                old(meta).tokens@[old(meta).index as int].word@,
            ) && !is_bool_word(old(meta).tokens@[old(meta).index as int].word@)
                && name_visible(
                old(meta).var_mem.frames@,
                old(meta).tokens@[old(meta).index as int].word@,
            ) && (old(meta).index + 1 >= old(meta).tokens@.len() || old(meta).tokens@[old(
                meta,
            ).index + 1].word@ != seq!['!', '=']) ==> (r matches Err(e) && (e.kind
                is EndOfInput || e.kind is UnexpectedToken)),
            old(meta).index + 3 == old(meta).tokens@.len() && simple_operand_word(
                old(meta).tokens@[old(meta).index as int].word@,
                old(meta).var_mem.frames@,
            ) && old(meta).tokens@[old(meta).index + 1].word@ == seq!['!', '=']
                && simple_operand_word(
                old(meta).tokens@[old(meta).index + 2].word@,
                old(meta).var_mem.frames@,
            ) && simple_operand_type(old(meta).tokens@[old(meta).index as int].word@)
                == simple_operand_type(old(meta).tokens@[old(meta).index + 2].word@) ==> (r
            matches Ok(()) && (*final(self).left).resolved_type() == simple_operand_type(
                old(meta).tokens@[old(meta).index as int].word@,
            ) && final(meta).index == final(meta).tokens@.len()),
            old(meta).index + 3 == old(meta).tokens@.len() && simple_operand_word(
                old(meta).tokens@[old(meta).index as int].word@,
                old(meta).var_mem.frames@,
            ) && old(meta).tokens@[old(meta).index + 1].word@ == seq!['!', '=']
                && simple_operand_word(
                old(meta).tokens@[old(meta).index + 2].word@,
                old(meta).var_mem.frames@,
            ) && simple_operand_type(old(meta).tokens@[old(meta).index as int].word@)
                != simple_operand_type(old(meta).tokens@[old(meta).index + 2].word@) ==> (r
            matches Err(e) && e.kind == ErrorKind::TypeMismatch(
                simple_operand_type(old(meta).tokens@[old(meta).index as int].word@),
                simple_operand_type(old(meta).tokens@[old(meta).index + 2].word@),
            ) && e.position == Some(old(meta).tokens@[old(meta).index + 1].pos)),
        decreases meta.tokens@.len() - meta.index, 3int,
    {
        proof {
            let toks = old(meta).tokens@;
            if old(meta).index < toks.len() {
                let cw = toks[old(meta).index as int].word@;
                if is_ident_word(cw) {
                    assert(is_ident_char(cw[0]));
                }
                if is_number_word(cw) {
                    assert(is_digit(cw[0]));
                }
            }
            if old(meta).index + 2 < toks.len() {
                let cw2 = toks[old(meta).index + 2].word@;
                if is_ident_word(cw2) {
                    assert(is_ident_char(cw2[0]));
                }
                if is_number_word(cw2) {
                    assert(is_digit(cw2[0]));
                }
            }
        }
        match parse_left_expr(meta, &mut *self.left) {
            Err(e) => {
                return Err(e);
            },
            Ok(()) => {},
        }
        let mut op: Vec<char> = Vec::new();
        op.push('!');
        op.push('=');
        proof {
            assert(op@ =~= seq!['!', '=']);
        }
        let ghost op_at = meta.index;
        let op_pos = match consume_operator(meta, &op) {
            Err(e) => {
                return Err(e);
            },
            Ok(p) => p,
        };
        match (&mut *self.right).parse(meta) {
            Err(e) => {
                return Err(e);
            },
            Ok(()) => {},
        }
        let lt = (&*self.left).get_type();
        let rt = (&*self.right).get_type();
        if lt != rt {
            return Err(ErrorDetails::new(ErrorKind::TypeMismatch(lt, rt), Some(op_pos)));
        }
        proof {
            assert(old(meta).tokens@[op_at as int].word@ == seq!['!', '=']);
        }
        Ok(())
    }
}

} // verus!
