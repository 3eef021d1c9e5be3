//! The guarantees the dispatch mechanism makes to every pass, stated and
//! proved once over the dispatch specification that `Stmt::accept` and
//! `BlockStmt::accept_each` are verified against.

use crate::errors::Error;
use crate::stmt::BlockStmt;
use crate::stmt::ExpressionStmt;
use crate::stmt::PrintStmt;
use crate::stmt::Shape;
use crate::stmt::Stmt;
use crate::stmt::StmtVisitor;
use crate::stmt::VarStmt;
use crate::stmt::dispatch_seq_spec;
use vstd::prelude::*;

verus! {

/// Exhaustiveness: dispatching any statement invokes exactly one handler,
/// and that handler is the one corresponding to the statement's constructed
/// shape, applied to the node that shape owns.
pub proof fn lemma_dispatch_exhaustive<T, V: StmtVisitor<T>>(stmt: Stmt, visitor: V)
    ensures
        stmt matches Stmt::Block(v) ==> stmt.dispatch_spec(visitor) == visitor.block_result(v),
        stmt matches Stmt::Expression(v) ==> stmt.dispatch_spec(visitor)
            == visitor.expression_result(v),
        stmt matches Stmt::Print(v) ==> stmt.dispatch_spec(visitor) == visitor.print_result(v),
        stmt matches Stmt::Var(v) ==> stmt.dispatch_spec(visitor) == visitor.var_result(v),
{
}

/// Transparency of success: when the handler for the statement's shape
/// succeeds with a value, dispatch returns that value unchanged.
pub proof fn lemma_dispatch_transparent_success<T, V: StmtVisitor<T>>(
    stmt: Stmt,
    visitor: V,
    value: T,
)
    requires
        stmt matches Stmt::Block(v) ==> visitor.block_result(v) == Ok::<T, Error>(value),
        stmt matches Stmt::Expression(v) ==> visitor.expression_result(v) == Ok::<T, Error>(value),
        stmt matches Stmt::Print(v) ==> visitor.print_result(v) == Ok::<T, Error>(value),
        stmt matches Stmt::Var(v) ==> visitor.var_result(v) == Ok::<T, Error>(value),
    ensures
        stmt.dispatch_spec(visitor) == Ok::<T, Error>(value),
{
}

/// Transparency of failure: when the handler for the statement's shape fails
/// with an error, dispatch returns exactly that error, with no wrapping or
/// alteration.
pub proof fn lemma_dispatch_transparent_failure<T, V: StmtVisitor<T>>(
    stmt: Stmt,
    visitor: V,
    error: Error,
)
    requires
        stmt matches Stmt::Block(v) ==> visitor.block_result(v) == Err::<T, Error>(error),
        stmt matches Stmt::Expression(v) ==> visitor.expression_result(v) == Err::<T, Error>(error),
        stmt matches Stmt::Print(v) ==> visitor.print_result(v) == Err::<T, Error>(error),
        stmt matches Stmt::Var(v) ==> visitor.var_result(v) == Err::<T, Error>(error),
    ensures
        stmt.dispatch_spec(visitor) == Err::<T, Error>(error),
{
}

/// Statelessness of dispatch: the answer is a function of the statement and
/// of the operation's handlers alone, so dispatching the same statement any
/// number of times, in any order, against operations whose handlers agree,
/// yields the same answer; nothing in the tree accumulates state between
/// dispatch calls.
pub proof fn lemma_dispatch_independent<T, V1: StmtVisitor<T>, V2: StmtVisitor<T>>(
    stmt: Stmt,
    first: V1,
    second: V2,
)
    requires
        forall|v: BlockStmt| #[trigger] first.block_result(v) == second.block_result(v),
        forall|v: ExpressionStmt| #[trigger] first.expression_result(v)
            == second.expression_result(v),
        forall|v: PrintStmt| #[trigger] first.print_result(v) == second.print_result(v),
        forall|v: VarStmt| #[trigger] first.var_result(v) == second.var_result(v),
    ensures
        stmt.dispatch_spec(first) == stmt.dispatch_spec(second),
{
}

/// Order preservation and short-circuit for block traversal: when
/// dispatching a sequence succeeds, there is one result per statement, in
/// the statements' own order, each being exactly what that statement's
/// handler returned; when it fails, the error is the first handler failure,
/// and every statement before it dispatched successfully.
pub proof fn lemma_dispatch_seq_order<T, V: StmtVisitor<T>>(stmts: Seq<Stmt>, visitor: V)
    ensures
        dispatch_seq_spec(stmts, visitor) matches Ok(results) ==> {
            &&& results.len() == stmts.len()
            &&& forall|i: int|
                0 <= i < stmts.len() ==> #[trigger] stmts[i].dispatch_spec(visitor) == Ok::<
                    T,
                    Error,
                >(results[i])
        },
        dispatch_seq_spec(stmts, visitor) matches Err(e) ==> exists|i: int|
            {
                &&& 0 <= i < stmts.len()
                &&& #[trigger] stmts[i].dispatch_spec(visitor) == Err::<T, Error>(e)
                &&& forall|j: int| 0 <= j < i ==> stmts[j].dispatch_spec(visitor) is Ok
            },
    decreases stmts.len(),
{
    if stmts.len() == 0 {
    } else {
        let tail = stmts.skip(1);
        lemma_dispatch_seq_order(tail, visitor);
        assert(forall|i: int| 0 <= i < tail.len() ==> #[trigger] tail[i] == stmts[i + 1]);
        match stmts[0].dispatch_spec(visitor) {
            Ok(first) => {
                match dispatch_seq_spec(tail, visitor) {
                    Ok(rest) => {
                        let results = seq![first] + rest;
                        assert(dispatch_seq_spec(stmts, visitor) == Ok::<Seq<T>, Error>(results));
                        assert forall|i: int| 0 <= i < stmts.len() implies #[trigger] stmts[i].dispatch_spec(
                            visitor,
                        ) == Ok::<T, Error>(results[i]) by {
                            if i > 0 {
                                assert(tail[i - 1].dispatch_spec(visitor) == Ok::<T, Error>(
                                    rest[i - 1],
                                ));
                                assert(results[i] == rest[i - 1]);
                            }
                        }
                    },
                    Err(e) => {
                        let i0 = choose|i: int|
                            {
                                &&& 0 <= i < tail.len()
                                &&& #[trigger] tail[i].dispatch_spec(visitor) == Err::<T, Error>(e)
                                &&& forall|j: int| 0 <= j < i ==> tail[j].dispatch_spec(visitor) is Ok
                            };
                        assert(stmts[i0 + 1].dispatch_spec(visitor) == Err::<T, Error>(e));
                        assert forall|j: int| 0 <= j < i0 + 1 implies stmts[j].dispatch_spec(
                            visitor,
                        ) is Ok by {
                            if j > 0 {
                                assert(tail[j - 1].dispatch_spec(visitor) is Ok);
                            }
                        }
                    },
                }
            },
            Err(e) => {
                assert(stmts[0].dispatch_spec(visitor) == Err::<T, Error>(e));
            },
        }
    }
}

/// The shape probe observes exhaustiveness at run time: dispatching any
/// statement against `ShapeVisitor` succeeds with exactly the statement's
/// constructed shape.
pub proof fn lemma_shape_probe(stmt: Stmt)
    ensures
        stmt.dispatch_spec(crate::stmt::ShapeVisitor) == Ok::<Shape, Error>(stmt.shape()),
{
}

} // verus!
