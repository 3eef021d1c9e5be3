use crate::errors::Error;
use crate::expr::Expr;
use crate::tokens::Token;
use vstd::prelude::*;

verus! {

/// A statement: one syntactic unit of executable code, as a closed, tagged
/// union over a fixed set of shapes. A statement value always resolves to
/// exactly one shape, and each shape owns its children directly, so a
/// statement tree is a strict tree.
///
/// The shape set deliberately includes the block-grouping shape, so nested
/// lexical scopes are representable and scoping passes can recurse into
/// them; dropping it would change what a statement means for every
/// consumer.
pub enum Stmt {
    /// A nested lexical scope holding a sequence of statements, executed in
    /// order.
    Block(BlockStmt),
    /// An expression evaluated for its side effect, value discarded.
    Expression(ExpressionStmt),
    /// An expression evaluated and its result emitted to output.
    Print(PrintStmt),
    /// A declaration introducing a new bound name, optionally initialized.
    Var(VarStmt),
}

/// The node owned by the block shape: an ordered sequence of statements.
/// Insertion order is semantically significant and is preserved.
pub struct BlockStmt {
    pub statements: Vec<Stmt>,
}

/// The node owned by the expression-statement shape.
pub struct ExpressionStmt {
    pub expression: Expr,
}

/// The node owned by the print shape.
pub struct PrintStmt {
    pub expression: Expr,
}

/// The node owned by the variable-declaration shape. The identifier is
/// never absent; the initializer is optional, and its absence means the
/// evaluator's default value.
pub struct VarStmt {
    pub name: Token,
    pub initializer: Option<Expr>,
}

/// One complete pass over the statement tree (an evaluator, a resolver, a
/// pretty-printer): a capability set with one handler per statement shape,
/// each of which may fail.
///
/// Each handler's behaviour is pinned by a spec function of the operation
/// and the node alone, so a side-effect-free operation answers the same
/// way however often, and in whatever order, statements are dispatched
/// against it.
pub trait StmtVisitor<T> {
    /// What this operation's block handler returns for a given node.
    spec fn block_result(&self, stmt: BlockStmt) -> Result<T, Error>;

    /// What this operation's expression-statement handler returns.
    spec fn expression_result(&self, stmt: ExpressionStmt) -> Result<T, Error>;

    /// What this operation's print handler returns.
    spec fn print_result(&self, stmt: PrintStmt) -> Result<T, Error>;

    /// What this operation's variable-declaration handler returns.
    spec fn var_result(&self, stmt: VarStmt) -> Result<T, Error>;

    fn visit_block_stmt(&self, stmt: &BlockStmt) -> (r: Result<T, Error>)
        ensures
            r == self.block_result(*stmt),
    ;

    fn visit_expression_stmt(&self, stmt: &ExpressionStmt) -> (r: Result<T, Error>)
        ensures
            r == self.expression_result(*stmt),
    ;

    fn visit_print_stmt(&self, stmt: &PrintStmt) -> (r: Result<T, Error>)
        ensures
            r == self.print_result(*stmt),
    ;

    fn visit_var_stmt(&self, stmt: &VarStmt) -> (r: Result<T, Error>)
        ensures
            r == self.var_result(*stmt),
    ;
}

/// The answer owed for dispatching a sequence of statements in order
/// against one operation: the handlers' results, in the statements' order,
/// unless some statement's handler fails, in which case the first such
/// failure is the answer and no later statement is reached.
pub open spec fn dispatch_seq_spec<T, V: StmtVisitor<T>>(stmts: Seq<Stmt>, visitor: V) -> Result<
    Seq<T>,
    Error,
>
    decreases stmts.len(),
{
    if stmts.len() == 0 {
        Ok(Seq::empty())
    } else {
        match stmts[0].dispatch_spec(visitor) {
            Ok(first) => match dispatch_seq_spec(stmts.skip(1), visitor) {
                Ok(rest) => Ok(seq![first] + rest),
                Err(e) => Err(e),
            },
            Err(e) => Err(e),
        }
    }
}

/// The tag of the one shape a statement was constructed with.
#[derive(Clone, Copy, Debug, PartialEq, Eq, Structural)]
pub enum Shape {
    Block,
    Expression,
    Print,
    Var,
}

impl Stmt {
    /// The shape this statement resolves to; always exactly one.
    pub open spec fn shape(self) -> Shape {
        match self {
            Stmt::Block(_) => Shape::Block,
            Stmt::Expression(_) => Shape::Expression,
            Stmt::Print(_) => Shape::Print,
            Stmt::Var(_) => Shape::Var,
        }
    }

    /// The unique answer dispatch owes for this statement: the result of the
    /// one handler that corresponds to the statement's shape, applied to the
    /// node that shape owns, propagated unchanged.
    pub open spec fn dispatch_spec<T, V: StmtVisitor<T>>(self, visitor: V) -> Result<T, Error> {
        match self {
            Stmt::Block(v) => visitor.block_result(v),
            Stmt::Expression(v) => visitor.expression_result(v),
            Stmt::Print(v) => visitor.print_result(v),
            Stmt::Var(v) => visitor.var_result(v),
        }
    }

    /// The single entry point of the tree: route this statement, together
    /// with an operation, to the handler for the statement's concrete shape,
    /// and hand back that handler's result with no wrapping, retry or
    /// suppression.
    pub fn accept<T, V: StmtVisitor<T>>(&self, stmt_visitor: &V) -> (r: Result<T, Error>)
        ensures
            r == self.dispatch_spec(*stmt_visitor),
    {
        match self {
            Stmt::Block(v) => v.accept(stmt_visitor),
            Stmt::Expression(v) => v.accept(stmt_visitor),
            Stmt::Print(v) => v.accept(stmt_visitor),
            Stmt::Var(v) => v.accept(stmt_visitor),
        }
    }
}

impl BlockStmt {
    /// Apply an operation to this node: exactly the block handler fires.
    pub fn accept<T, V: StmtVisitor<T>>(&self, visitor: &V) -> (r: Result<T, Error>)
        ensures
            r == visitor.block_result(*self),
    {
        visitor.visit_block_stmt(self)
    }

    /// Dispatch this block's statements one by one, in insertion order,
    /// against one operation, collecting the results. A failure at any
    /// statement short-circuits: the remaining statements are not dispatched
    /// and the first error is returned unchanged, with no partial results.
    pub fn accept_each<T, V: StmtVisitor<T>>(&self, visitor: &V) -> (r: Result<Vec<T>, Error>)
        ensures
            r matches Ok(results) ==> dispatch_seq_spec(self.statements@, *visitor) == Ok::<
                Seq<T>,
                Error,
            >(results@),
            r matches Err(e) ==> dispatch_seq_spec(self.statements@, *visitor) == Err::<
                Seq<T>,
                Error,
            >(e),
    {
        let ghost all = self.statements@;
        let mut results: Vec<T> = Vec::new();
        let n = self.statements.len();
        let mut i: usize = 0;
        proof {
            assert(all.skip(0) =~= all);
            if let Ok(rest) = dispatch_seq_spec(all, *visitor) {
                assert(Seq::<T>::empty() + rest =~= rest);
            }
        }
        while i < n
            invariant
                i <= n,
                n == all.len(),
                all == self.statements@,
                results@.len() == i,
                dispatch_seq_spec(all, *visitor) == (match dispatch_seq_spec(
                    all.skip(i as int),
                    *visitor,
                ) {
                    Ok(rest) => Ok::<Seq<T>, Error>(results@ + rest),
                    Err(e) => Err::<Seq<T>, Error>(e),
                }),
            decreases n - i,
        {
            proof {
                assert(all.skip(i as int)[0] == all[i as int]);
                assert(all.skip(i as int).skip(1) =~= all.skip(i as int + 1));
            }
            match self.statements[i].accept(visitor) {
                Ok(value) => {
                    proof {
                        assert(results@.push(value) =~= results@ + seq![value]);
                    }
                    let ghost before = results@;
                    results.push(value);
                    proof {
                        if let Ok(rest) = dispatch_seq_spec(all.skip(i as int + 1), *visitor) {
                            assert(before + (seq![value] + rest) =~= results@ + rest);
                        }
                    }
                },
                Err(e) => {
                    return Err(e);
                },
            }
            i = i + 1;
        }
        proof {
            assert(all.skip(n as int) =~= Seq::<Stmt>::empty());
            assert(results@ + Seq::<T>::empty() =~= results@);
        }
        Ok(results)
    }
}

impl ExpressionStmt {
    /// Apply an operation to this node: exactly the expression-statement
    /// handler fires.
    pub fn accept<T, V: StmtVisitor<T>>(&self, visitor: &V) -> (r: Result<T, Error>)
        ensures
            r == visitor.expression_result(*self),
    {
        visitor.visit_expression_stmt(self)
    }
}

impl PrintStmt {
    /// Apply an operation to this node: exactly the print handler fires.
    pub fn accept<T, V: StmtVisitor<T>>(&self, visitor: &V) -> (r: Result<T, Error>)
        ensures
            r == visitor.print_result(*self),
    {
        visitor.visit_print_stmt(self)
    }
}

impl VarStmt {
    /// Apply an operation to this node: exactly the variable-declaration
    /// handler fires.
    pub fn accept<T, V: StmtVisitor<T>>(&self, visitor: &V) -> (r: Result<T, Error>)
        ensures
            r == visitor.var_result(*self),
    {
        visitor.visit_var_stmt(self)
    }
}

/// An operation that reports which handler dispatch selected: every handler
/// succeeds with its own shape tag. Dispatching any statement against it
/// observes that exactly the handler of the statement's constructed shape
/// fired.
pub struct ShapeVisitor;

impl StmtVisitor<Shape> for ShapeVisitor {
    open spec fn block_result(&self, stmt: BlockStmt) -> Result<Shape, Error> {
        Ok(Shape::Block)
    }

    open spec fn expression_result(&self, stmt: ExpressionStmt) -> Result<Shape, Error> {
        Ok(Shape::Expression)
    }

    open spec fn print_result(&self, stmt: PrintStmt) -> Result<Shape, Error> {
        Ok(Shape::Print)
    }

    open spec fn var_result(&self, stmt: VarStmt) -> Result<Shape, Error> {
        Ok(Shape::Var)
    }

    fn visit_block_stmt(&self, _stmt: &BlockStmt) -> (r: Result<Shape, Error>) {
        Ok(Shape::Block)
    }

    fn visit_expression_stmt(&self, _stmt: &ExpressionStmt) -> (r: Result<Shape, Error>) {
        Ok(Shape::Expression)
    }

    fn visit_print_stmt(&self, _stmt: &PrintStmt) -> (r: Result<Shape, Error>) {
        Ok(Shape::Print)
    }

    fn visit_var_stmt(&self, _stmt: &VarStmt) -> (r: Result<Shape, Error>) {
        Ok(Shape::Var)
    }
}

} // verus!
