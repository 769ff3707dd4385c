use crate::node::{Kind, NodeView, ParseNode};
use crate::rast::{
    build, build_all, reinterpret, BuildError, ExprView, Keyword, ValueView, keyword_of,
};
use vstd::prelude::*;

verus! {

/// Classification is a function of the node: whatever two calls of
/// `classify` on one node return, they return the same kind.
pub proof fn law_classification_is_idempotent(node: ParseNode, first: Kind, second: Kind)
    requires
        first == node@.kind(),
        second == node@.kind(),
    ensures
        first == second,
{
}

/// A scalar node flagged missing translates to the missing-value sentinel,
/// whatever its kind and payload.
pub proof fn law_missing_takes_precedence(node: NodeView)
    requires
        node.kind().is_scalar(),
        node.is_missing(),
    ensures
        build(node) == Ok::<ExprView, BuildError>(ExprView::Value(ValueView::NA)),
{
}

/// A sequence translates if and only if each of its nodes does, and then
/// node by node, in order.
pub proof fn law_sequence_is_pointwise(nodes: Seq<NodeView>)
    ensures
        build_all(nodes) is Ok <==> forall|i: int|
            0 <= i < nodes.len() ==> (#[trigger] build(nodes[i])) is Ok,
        build_all(nodes) matches Ok(built) ==> built.len() == nodes.len() && forall|i: int|
            0 <= i < nodes.len() ==> build(nodes[i]) == Ok::<ExprView, BuildError>(
                #[trigger] built[i],
            ),
    decreases nodes.len(),
{
    if nodes.len() > 0 {
        let front = nodes.drop_last();
        law_sequence_is_pointwise(front);
        if build_all(nodes) is Ok {
            assert forall|i: int| 0 <= i < nodes.len() implies (#[trigger] build(
                nodes[i],
            )) is Ok by {
                if i < front.len() {
                    assert(build(front[i]) is Ok);
                }
            }
        }
        if forall|i: int| 0 <= i < nodes.len() ==> (#[trigger] build(nodes[i])) is Ok {
            assert(build(nodes[nodes.len() - 1]) is Ok);
        }
    }
}

/// A sequence that does not translate fails as its first failing node does.
pub proof fn law_sequence_fails_at_first_failure(nodes: Seq<NodeView>, k: int)
    requires
        0 <= k < nodes.len(),
        build(nodes[k]) is Err,
        forall|i: int| 0 <= i < k ==> (#[trigger] build(nodes[i])) is Ok,
    ensures
        build_all(nodes) matches Err(e) && build(nodes[k]) == Err::<ExprView, BuildError>(e),
    decreases nodes.len(),
{
    let front = nodes.drop_last();
    if k < front.len() {
        law_sequence_fails_at_first_failure(front, k);
    } else {
        law_sequence_is_pointwise(front);
    }
}

/// A statement sequence of exactly one child translates as that child does.
pub proof fn law_single_statement_collapses(children: Seq<NodeView>)
    requires
        children.len() == 1,
    ensures
        build(NodeView::StatementSequence { children }) == build(children[0]),
{
    assert(build_all(children.drop_last()) == Ok::<Seq<ExprView>, BuildError>(Seq::empty()));
    match build(children[0]) {
        Ok(expr) => {
            assert(build_all(children) == Ok::<Seq<ExprView>, BuildError>(
                Seq::<ExprView>::empty().push(expr),
            ));
        },
        Err(_) => {},
    }
}

/// A conditional with two arguments gets `Empty` as its else-branch.
pub proof fn law_if_without_else(callee: ExprView, args: Seq<ExprView>)
    requires
        callee == ExprView::Symbol("if"@),
        args.len() == 2,
    ensures
        reinterpret(callee, args) == Ok::<ExprView, BuildError>(
            ExprView::If(Box::new(args[0]), Box::new(args[1]), Box::new(ExprView::Empty)),
        ),
{
    lemma_keywords();
}

/// A call node that spells a two-argument `if` translates, where it
/// translates at all, to a conditional whose else-branch is `Empty`.
pub proof fn law_else_branch_is_total(condition: NodeView, then: NodeView)
    ensures
        ({
            let node = NodeView::Call {
                children: seq![NodeView::Symbol { name: "if"@ }, condition, then],
            };
            match (build(condition), build(then)) {
                (Ok(c), Ok(t)) => build(node) == Ok::<ExprView, BuildError>(
                    ExprView::If(Box::new(c), Box::new(t), Box::new(ExprView::Empty)),
                ),
                _ => build(node) is Err,
            }
        }),
{
    let head = NodeView::Symbol { name: "if"@ };
    let children = seq![head, condition, then];
    law_sequence_is_pointwise(children);
    match build_all(children) {
        Ok(built) => {
            law_if_without_else(built[0], built.skip(1));
        },
        Err(_) => {},
    }
}

/// Whenever reinterpretation yields a `for` loop, its loop variable is the
/// text of the symbol that the first argument translated to.
pub proof fn law_loop_variable_is_symbol(callee: ExprView, args: Seq<ExprView>)
    requires
        reinterpret(callee, args) matches Ok(ExprView::For(..)),
    ensures
        callee matches ExprView::Symbol(name) && keyword_of(name) == Some(Keyword::For),
        args.len() == 3,
        reinterpret(callee, args) matches Ok(ExprView::For(var, sequence, body)) && args[0]
            == ExprView::Symbol(var) && *sequence == args[1] && *body == args[2],
{
}

/// A call node that translates to a `for` loop has four children, and the
/// loop variable is the text of the symbol that its second child, the first
/// argument, translates to.
pub proof fn law_loop_variable_comes_from_symbol(children: Seq<NodeView>)
    requires
        build(NodeView::Call { children }) matches Ok(ExprView::For(..)),
    ensures
        children.len() == 4,
        build(NodeView::Call { children }) matches Ok(ExprView::For(var, _, _)) && build(
            children[1],
        ) == Ok::<ExprView, BuildError>(ExprView::Symbol(var)),
{
    law_sequence_is_pointwise(children);
    let built = build_all(children)->Ok_0;
    law_loop_variable_is_symbol(built[0], built.skip(1));
}

/// A `for` whose first argument translates to anything but a symbol is
/// rejected, never turned into a loop.
pub proof fn law_loop_variable_must_be_symbol(callee: ExprView, args: Seq<ExprView>)
    requires
        callee == ExprView::Symbol("for"@),
        args.len() == 3,
        !(args[0] is Symbol),
    ensures
        reinterpret(callee, args) == Err::<ExprView, BuildError>(
            BuildError::LoopVariableNotSymbol,
        ),
{
    lemma_keywords();
}

/// The reserved words are recognized as themselves.
pub proof fn lemma_keywords()
    ensures
        keyword_of("function"@) == Some(Keyword::Function),
        keyword_of("if"@) == Some(Keyword::If),
        keyword_of("while"@) == Some(Keyword::While),
        keyword_of("for"@) == Some(Keyword::For),
        keyword_of("repeat"@) == Some(Keyword::Repeat),
        keyword_of("{"@) == Some(Keyword::Block),
        keyword_of("break"@) == Some(Keyword::Break),
        keyword_of("next"@) == Some(Keyword::Next),
{
    reveal_strlit("function");
    reveal_strlit("if");
    reveal_strlit("while");
    reveal_strlit("for");
    reveal_strlit("repeat");
    reveal_strlit("{");
    reveal_strlit("break");
    reveal_strlit("next");
    assert("for"@.len() == 3);
    assert("{"@.len() == 1);
    assert("while"@[0] == 'w');
    assert("break"@[0] == 'b');
    assert("repeat"@[0] == 'r');
    assert("next"@[0] == 'n');
    assert("function"@[0] == 'f');
}

} // verus!
