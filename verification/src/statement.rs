use vstd::prelude::*;
use crate::diagnostic::{valid_mismatch_error, ErrorDetails, ErrorKind};
use crate::expr::{expr_wf, simple_operand_type, simple_operand_word, Expr};
use crate::metadata::ParserMetadata;
use crate::types::{Type, Typed};

verus! {

/// One statement of a block. At this stage of the language every statement
/// is an expression statement; further statement forms dispatch from here by
/// the same production protocol.
#[derive(Debug)]
pub struct Statement {
    pub expr: Expr,
}

impl Statement {
    pub fn new() -> (s: Statement)
        ensures
            s.expr == Expr::Void,
    {
        Statement { expr: Expr::new() }
    }

    /// Parses whichever statement production matches the current token.
    pub fn parse(&mut self, meta: &mut ParserMetadata) -> (r: Result<(), ErrorDetails>)
        requires
            old(meta).wf(),
        ensures
            final(meta).wf(),
            final(meta).tokens == old(meta).tokens,
            final(meta).var_mem == old(meta).var_mem,
            r matches Ok(()) ==> old(meta).index < final(meta).index <= final(
            meta).tokens@.len() && expr_wf(final(self).expr),
            r matches Err(e) ==> valid_mismatch_error(e),
            old(meta).index + 1 == old(meta).tokens@.len() && simple_operand_word(
                old(meta).tokens@[old(meta).index as int].word@,
                old(meta).var_mem.frames@,
            ) ==> (r matches Ok(()) && final(self).expr.resolved_type() == simple_operand_type(
                old(meta).tokens@[old(meta).index as int].word@,
            ) && final(meta).index == final(meta).tokens@.len()),
            old(meta).index + 3 == old(meta).tokens@.len() && simple_operand_word(
                old(meta).tokens@[old(meta).index as int].word@,
                old(meta).var_mem.frames@,
            ) && old(meta).tokens@[old(meta).index + 1].word@ == seq!['!', '=']
                && simple_operand_word(
                old(meta).tokens@[old(meta).index + 2].word@,
                old(meta).var_mem.frames@,
            ) && simple_operand_type(old(meta).tokens@[old(meta).index as int].word@)
                == simple_operand_type(old(meta).tokens@[old(meta).index + 2].word@) ==> (r
            matches Ok(()) && final(self).expr is Neq && final(self).expr.resolved_type()
                == Type::Bool && final(meta).index == final(meta).tokens@.len()),
            old(meta).index + 3 == old(meta).tokens@.len() && simple_operand_word(
                old(meta).tokens@[old(meta).index as int].word@,
                old(meta).var_mem.frames@,
            ) && old(meta).tokens@[old(meta).index + 1].word@ == seq!['!', '=']
                && simple_operand_word(
                old(meta).tokens@[old(meta).index + 2].word@,
                old(meta).var_mem.frames@,
            ) && simple_operand_type(old(meta).tokens@[old(meta).index as int].word@)
                != simple_operand_type(old(meta).tokens@[old(meta).index + 2].word@) ==> (r
            matches Err(e) && e.kind == ErrorKind::TypeMismatch(
                simple_operand_type(old(meta).tokens@[old(meta).index as int].word@),
                simple_operand_type(old(meta).tokens@[old(meta).index + 2].word@),
            ) && e.position == Some(old(meta).tokens@[old(meta).index + 1].pos)),
        decreases meta.tokens@.len() - meta.index, 5int,
    {
        self.expr.parse(meta)
    }
}

} // verus!
