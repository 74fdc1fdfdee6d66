use vstd::prelude::*;
use crate::diagnostic::{valid_mismatch_error, ErrorDetails, ErrorKind};
use crate::metadata::ParserMetadata;
use crate::expr::{expr_wf, simple_operand_type, simple_operand_word};
use crate::statement::Statement;
use crate::types::{Type, Typed};

verus! {

/// The top-level production: a maximal sequence of statements under one
/// lexical scope. Order of the statements is significant downstream.
#[derive(Debug)]
pub struct Block {
    pub statements: Vec<Statement>,
}

impl Block {
    pub fn new() -> (b: Block)
        ensures
            b.statements@.len() == 0,
    {
        Block { statements: Vec::new() }
    }

    /// Parses statements until the cursor is exhausted, under one freshly
    /// pushed scope. The first statement failure terminates the parse and
    /// propagates; there is no recovery or resynchronization. The scope is
    /// popped on the success path and the failure path alike, so one block
    /// parse always performs exactly one matched push/pop pair and the scope
    /// stack leaves exactly as it came: names declared inside the block are
    /// invisible to lookups performed after it.
    pub fn parse(&mut self, meta: &mut ParserMetadata) -> (r: Result<(), ErrorDetails>)
        requires
            old(meta).wf(),
        ensures
            final(meta).wf(),
            final(meta).tokens == old(meta).tokens,
            final(meta).var_mem.frames@ == old(meta).var_mem.frames@,
            r matches Ok(()) ==> final(meta).index == final(meta).tokens@.len(),
            old(self).statements@ == final(self).statements@.subrange(
                0,
                old(self).statements@.len() as int,
            ),
            forall|i: int|
                old(self).statements@.len() <= i < final(self).statements@.len()
                    ==> expr_wf(#[trigger] final(self).statements@[i].expr),
            old(meta).index == old(meta).tokens@.len() ==> (r matches Ok(()) && final(
            self).statements == old(self).statements),
            r matches Err(e) ==> valid_mismatch_error(e),
            old(meta).index + 1 == old(meta).tokens@.len() && simple_operand_word(
                old(meta).tokens@[old(meta).index as int].word@,
                old(meta).var_mem.frames@,
            ) ==> (r matches Ok(()) && final(self).statements@.len() == old(
            self).statements@.len() + 1
                && final(self).statements@.last().expr.resolved_type() == simple_operand_type(
                old(meta).tokens@[old(meta).index as int].word@,
            )),
            old(meta).index + 3 == old(meta).tokens@.len() && simple_operand_word(
                old(meta).tokens@[old(meta).index as int].word@,
                old(meta).var_mem.frames@,
            ) && old(meta).tokens@[old(meta).index + 1].word@ == seq!['!', '=']
                && simple_operand_word(
                old(meta).tokens@[old(meta).index + 2].word@,
                old(meta).var_mem.frames@,
            ) && simple_operand_type(old(meta).tokens@[old(meta).index as int].word@)
                == simple_operand_type(old(meta).tokens@[old(meta).index + 2].word@) ==> (r
            matches Ok(()) && final(self).statements@.len() == old(self).statements@.len() + 1
                && final(self).statements@.last().expr is Neq
                && final(self).statements@.last().expr.resolved_type() == Type::Bool),
            old(meta).index + 3 == old(meta).tokens@.len() && simple_operand_word(
                old(meta).tokens@[old(meta).index as int].word@,
                old(meta).var_mem.frames@,
            ) && old(meta).tokens@[old(meta).index + 1].word@ == seq!['!', '=']
                && simple_operand_word(
                old(meta).tokens@[old(meta).index + 2].word@,
                old(meta).var_mem.frames@,
            ) && simple_operand_type(old(meta).tokens@[old(meta).index as int].word@)
                != simple_operand_type(old(meta).tokens@[old(meta).index + 2].word@) ==> (r
            matches Err(e) && e.kind == ErrorKind::TypeMismatch(
                simple_operand_type(old(meta).tokens@[old(meta).index as int].word@),
                simple_operand_type(old(meta).tokens@[old(meta).index + 2].word@),
            ) && e.position == Some(old(meta).tokens@[old(meta).index + 1].pos)),
    {
        meta.var_mem.push_scope();
        while meta.get_index() < meta.token_count()
            invariant
                meta.wf(),
                meta.tokens == old(meta).tokens,
                meta.var_mem.frames@.len() == old(meta).var_mem.frames@.len() + 1,
                meta.var_mem.frames@.drop_last() == old(meta).var_mem.frames@,
                old(meta).index <= meta.index,
                old(self).statements@.len() <= self.statements@.len(),
                old(self).statements@ == self.statements@.subrange(
                    0,
                    old(self).statements@.len() as int,
                ),
                forall|i: int|
                    old(self).statements@.len() <= i < self.statements@.len() ==> expr_wf(
                        #[trigger] self.statements@[i].expr,
                    ),
                old(meta).index == old(meta).tokens@.len() ==> self.statements == old(
                self).statements,
                old(meta).index + 1 == old(meta).tokens@.len() && simple_operand_word(
                    old(meta).tokens@[old(meta).index as int].word@,
                    old(meta).var_mem.frames@,
                ) ==> (meta.index == old(meta).index && self.statements@ == old(
                self).statements@) || (meta.index == old(meta).tokens@.len()
                    && self.statements@.len() == old(self).statements@.len() + 1
                    && self.statements@.last().expr.resolved_type() == simple_operand_type(
                    old(meta).tokens@[old(meta).index as int].word@,
                )),
                old(meta).index + 3 == old(meta).tokens@.len() && simple_operand_word(
                    old(meta).tokens@[old(meta).index as int].word@,
                    old(meta).var_mem.frames@,
                ) && old(meta).tokens@[old(meta).index + 1].word@ == seq!['!', '=']
                    && simple_operand_word(
                    old(meta).tokens@[old(meta).index + 2].word@,
                    old(meta).var_mem.frames@,
                ) && simple_operand_type(old(meta).tokens@[old(meta).index as int].word@)
                    == simple_operand_type(old(meta).tokens@[old(meta).index + 2].word@) ==> (
                meta.index == old(meta).index && self.statements@ == old(
                self).statements@) || (meta.index == old(meta).tokens@.len()
                    && self.statements@.len() == old(self).statements@.len() + 1
                    && self.statements@.last().expr is Neq
                    && self.statements@.last().expr.resolved_type() == Type::Bool),
                old(meta).index + 3 == old(meta).tokens@.len() && simple_operand_word(
                    old(meta).tokens@[old(meta).index as int].word@,
                    old(meta).var_mem.frames@,
                ) && old(meta).tokens@[old(meta).index + 1].word@ == seq!['!', '=']
                    && simple_operand_word(
                    old(meta).tokens@[old(meta).index + 2].word@,
                    old(meta).var_mem.frames@,
                ) && simple_operand_type(old(meta).tokens@[old(meta).index as int].word@)
                    != simple_operand_type(old(meta).tokens@[old(meta).index + 2].word@)
                    ==> meta.index == old(meta).index,
            decreases meta.tokens@.len() - meta.index,
        {
            proof {
                let toks = old(meta).tokens@;
                assert(meta.var_mem.frames@ =~= old(meta).var_mem.frames@.push(
                    meta.var_mem.frames@.last(),
                ));
                if old(meta).index < toks.len() {
                    crate::scope::lemma_visibility_monotonic(
                        old(meta).var_mem.frames@,
                        meta.var_mem.frames@.last(),
                        toks[old(meta).index as int].word@,
                    );
                }
                if old(meta).index + 2 < toks.len() {
                    crate::scope::lemma_visibility_monotonic(
                        old(meta).var_mem.frames@,
                        meta.var_mem.frames@.last(),
                        toks[old(meta).index + 2].word@,
                    );
                }
            }
            let mut statement = Statement::new();
            match statement.parse(meta) {
                Err(e) => {
                    meta.var_mem.pop_scope();
                    return Err(e);
                },
                Ok(()) => {},
            }
            self.statements.push(statement);
        }
        meta.var_mem.pop_scope();
        Ok(())
    }
}

} // verus!
