use crate::node::{argument_views, node_views, Argument, ArgumentView, NodeView, ParseNode};
use vstd::prelude::*;

verus! {

/// A literal value of the abstract syntax tree.
#[derive(Debug, PartialEq)]
pub enum Value {
    /// A real number, held as its IEEE 754 binary64 bit pattern.
    Real(u64),
    Int(i64),
    Str(String),
    Bool(bool),
    Null,
    /// The missing-value sentinel, whatever scalar kind it came from.
    NA,
}

/// An expression of the abstract syntax tree.
#[derive(Debug, PartialEq)]
pub enum Expr {
    Value(Value),
    Symbol(String),
    Statements(Vec<Expr>),
    /// Condition, then-branch, else-branch. A conditional without an `else`
    /// has `Empty` as its third field.
    If(Box<Expr>, Box<Expr>, Box<Expr>),
    /// Loop variable, sequence, body.
    For(String, Box<Expr>, Box<Expr>),
    /// Condition, body.
    While(Box<Expr>, Box<Expr>),
    Repeat(Box<Expr>),
    /// Callee, arguments.
    Call(Box<Expr>, Vec<Expr>),
    /// Parameter list, body.
    FunctionDef(Box<Expr>, Box<Expr>),
    /// The declared parameter names of a function.
    ArgList(Vec<String>),
    Break,
    Next,
    Empty,
}

/// Mathematical model of a [`Value`].
pub ghost enum ValueView {
    Real(u64),
    Int(i64),
    Str(Seq<char>),
    Bool(bool),
    Null,
    NA,
}

/// Mathematical model of an [`Expr`].
pub ghost enum ExprView {
    Value(ValueView),
    Symbol(Seq<char>),
    Statements(Seq<ExprView>),
    If(Box<ExprView>, Box<ExprView>, Box<ExprView>),
    For(Seq<char>, Box<ExprView>, Box<ExprView>),
    While(Box<ExprView>, Box<ExprView>),
    Repeat(Box<ExprView>),
    Call(Box<ExprView>, Seq<ExprView>),
    FunctionDef(Box<ExprView>, Box<ExprView>),
    ArgList(Seq<Seq<char>>),
    Break,
    Next,
    Empty,
}

impl View for Value {
    type V = ValueView;

    open spec fn view(&self) -> ValueView {
        match self {
            Value::Real(bits) => ValueView::Real(*bits),
            Value::Int(value) => ValueView::Int(*value),
            Value::Str(text) => ValueView::Str(text@),
            Value::Bool(value) => ValueView::Bool(*value),
            Value::Null => ValueView::Null,
            Value::NA => ValueView::NA,
        }
    }
}

impl Expr {
    /// The mathematical model of this expression.
    pub open spec fn model(&self) -> ExprView
        decreases self,
    {
        match self {
            Expr::Value(value) => ExprView::Value(value@),
            Expr::Symbol(name) => ExprView::Symbol(name@),
            Expr::Statements(items) => ExprView::Statements(expr_views(items)),
            Expr::If(cond, then, otherwise) => ExprView::If(
                Box::new(cond.model()),
                Box::new(then.model()),
                Box::new(otherwise.model()),
            ),
            Expr::For(var, sequence, body) => ExprView::For(
                var@,
                Box::new(sequence.model()),
                Box::new(body.model()),
            ),
            Expr::While(cond, body) => ExprView::While(
                Box::new(cond.model()),
                Box::new(body.model()),
            ),
            Expr::Repeat(body) => ExprView::Repeat(Box::new(body.model())),
            Expr::Call(callee, args) => ExprView::Call(
                Box::new(callee.model()),
                expr_views(args),
            ),
            Expr::FunctionDef(params, body) => ExprView::FunctionDef(
                Box::new(params.model()),
                Box::new(body.model()),
            ),
            Expr::ArgList(names) => ExprView::ArgList(name_views(names)),
            Expr::Break => ExprView::Break,
            Expr::Next => ExprView::Next,
            Expr::Empty => ExprView::Empty,
        }
    }
}

impl View for Expr {
    type V = ExprView;

    open spec fn view(&self) -> ExprView {
        self.model()
    }
}

/// The models of a vector of expressions, in order.
pub open spec fn expr_views(items: &Vec<Expr>) -> Seq<ExprView>
    decreases items,
{
    Seq::new(
        items.len() as nat,
        |i: int|
            if 0 <= i < items.len() {
                items[i].model()
            } else {
                ExprView::Empty
            },
    )
}

/// The texts of a vector of names, in order.
pub open spec fn name_views(names: &Vec<String>) -> Seq<Seq<char>> {
    Seq::new(names.len() as nat, |i: int| names[i]@)
}

/// The syntactic form whose shape a node failed to have.
#[derive(Clone, Copy, Debug, PartialEq, Eq, Structural)]
pub enum Form {
    /// An ordinary call node, which needs a callee.
    Call,
    Function,
    If,
    While,
    For,
    Repeat,
}

/// Why a parse tree could not be translated.
#[derive(Clone, Copy, Debug, PartialEq, Eq, Structural)]
pub enum BuildError {
    /// A node of a kind outside the supported set, with the host's type code.
    UnsupportedConstruct { type_code: u32 },
    /// A form that did not carry the number of children it needs; `found`
    /// is the number of arguments it carried.
    StructuralArity { form: Form, found: usize },
    /// The first argument of a `for` did not translate to a symbol.
    LoopVariableNotSymbol,
}

/// The reserved words that turn a call into a control-flow node.
#[derive(Clone, Copy, Debug, PartialEq, Eq, Structural)]
pub enum Keyword {
    Function,
    If,
    While,
    For,
    Repeat,
    Block,
    Break,
    Next,
}

/// The reserved word that a symbol's text spells, if any.
pub open spec fn keyword_of(name: Seq<char>) -> Option<Keyword> {
    if name == "function"@ {
        Some(Keyword::Function)
    } else if name == "if"@ {
        Some(Keyword::If)
    } else if name == "while"@ {
        Some(Keyword::While)
    } else if name == "for"@ {
        Some(Keyword::For)
    } else if name == "repeat"@ {
        Some(Keyword::Repeat)
    } else if name == "{"@ {
        Some(Keyword::Block)
    } else if name == "break"@ {
        Some(Keyword::Break)
    } else if name == "next"@ {
        Some(Keyword::Next)
    } else {
        None
    }
}

/// The name an argument-list entry contributes: its tag, or the empty text
/// where it has none.
pub open spec fn name_of(tag: Option<Seq<char>>) -> Seq<char> {
    match tag {
        Some(name) => name,
        None => Seq::empty(),
    }
}

/// The arity failure of `form` on `found` arguments.
pub open spec fn arity_error(form: Form, found: nat) -> Result<ExprView, BuildError> {
    Err(BuildError::StructuralArity { form, found: found as usize })
}

/// What a call with the given translated callee and arguments becomes.
///
/// A callee that is a symbol spelling a reserved word selects the matching
/// control-flow node, provided the arguments have the shape that node
/// needs; any other callee gives an ordinary call.
pub open spec fn reinterpret(callee: ExprView, args: Seq<ExprView>) -> Result<
    ExprView,
    BuildError,
> {
    match callee {
        ExprView::Symbol(name) => match keyword_of(name) {
            Some(Keyword::Function) => if args.len() == 3 {
                Ok(ExprView::FunctionDef(Box::new(args[1]), Box::new(args[2])))
            } else {
                arity_error(Form::Function, args.len())
            },
            Some(Keyword::If) => if args.len() == 2 {
                Ok(ExprView::If(Box::new(args[0]), Box::new(args[1]), Box::new(ExprView::Empty)))
            } else if args.len() == 3 {
                Ok(ExprView::If(Box::new(args[0]), Box::new(args[1]), Box::new(args[2])))
            } else {
                arity_error(Form::If, args.len())
            },
            Some(Keyword::While) => if args.len() == 2 {
                Ok(ExprView::While(Box::new(args[0]), Box::new(args[1])))
            } else {
                arity_error(Form::While, args.len())
            },
            Some(Keyword::For) => if args.len() == 3 {
                match args[0] {
                    ExprView::Symbol(var) => Ok(
                        ExprView::For(var, Box::new(args[1]), Box::new(args[2])),
                    ),
                    _ => Err(BuildError::LoopVariableNotSymbol),
                }
            } else {
                arity_error(Form::For, args.len())
            },
            Some(Keyword::Repeat) => if args.len() == 1 {
                Ok(ExprView::Repeat(Box::new(args[0])))
            } else {
                arity_error(Form::Repeat, args.len())
            },
            Some(Keyword::Block) => Ok(ExprView::Statements(args)),
            Some(Keyword::Break) => Ok(ExprView::Break),
            Some(Keyword::Next) => Ok(ExprView::Next),
            None => Ok(ExprView::Call(Box::new(callee), args)),
        },
        _ => Ok(ExprView::Call(Box::new(callee), args)),
    }
}

/// A statement sequence of exactly one statement is that statement itself.
pub open spec fn collapse(statements: Seq<ExprView>) -> ExprView {
    if statements.len() == 1 {
        statements[0]
    } else {
        ExprView::Statements(statements)
    }
}

/// The translation of a parse node.
///
/// A scalar flagged missing becomes the missing-value sentinel whatever its
/// kind; every other node is translated by its kind.
pub open spec fn build(node: NodeView) -> Result<ExprView, BuildError>
    decreases node,
{
    if node.is_missing() {
        Ok(ExprView::Value(ValueView::NA))
    } else {
        match node {
            NodeView::Integer { value, .. } => Ok(ExprView::Value(ValueView::Int(value))),
            NodeView::Real { bits, .. } => Ok(ExprView::Value(ValueView::Real(bits))),
            NodeView::String { text, .. } => Ok(ExprView::Value(ValueView::Str(text))),
            NodeView::Logical { value, .. } => Ok(ExprView::Value(ValueView::Bool(value))),
            NodeView::Null => Ok(ExprView::Value(ValueView::Null)),
            NodeView::Symbol { name } => Ok(ExprView::Symbol(name)),
            NodeView::Call { children } => match build_all(children) {
                Ok(built) => if built.len() == 0 {
                    arity_error(Form::Call, 0)
                } else {
                    reinterpret(built[0], built.skip(1))
                },
                Err(e) => Err(e),
            },
            NodeView::ArgumentList { arguments } => Ok(ExprView::ArgList(argument_names(arguments))),
            NodeView::StatementSequence { children } => match build_all(children) {
                Ok(built) => Ok(collapse(built)),
                Err(e) => Err(e),
            },
            NodeView::Other { type_code } => Err(BuildError::UnsupportedConstruct { type_code }),
        }
    }
}

/// The names that the entries of an argument list declare, in order.
pub open spec fn argument_names(arguments: Seq<ArgumentView>) -> Seq<Seq<char>> {
    arguments.map_values(|a: ArgumentView| name_of(a.tag))
}

/// The translations of a sequence of nodes, in order; the failure of the
/// first node that fails, if one does.
pub open spec fn build_all(nodes: Seq<NodeView>) -> Result<Seq<ExprView>, BuildError>
    decreases nodes,
{
    if nodes.len() == 0 {
        Ok(Seq::empty())
    } else {
        match build_all(nodes.drop_last()) {
            Ok(built) => match build(nodes.last()) {
                Ok(expr) => Ok(built.push(expr)),
                Err(e) => Err(e),
            },
            Err(e) => Err(e),
        }
    }
}

/// The model of a translation's outcome.
pub open spec fn result_view(r: Result<Expr, BuildError>) -> Result<ExprView, BuildError> {
    match r {
        Ok(expr) => Ok(expr@),
        Err(e) => Err(e),
    }
}

/// The model of the outcome of translating a sequence.
pub open spec fn sequence_view(r: Result<Vec<Expr>, BuildError>) -> Result<
    Seq<ExprView>,
    BuildError,
> {
    match r {
        Ok(items) => Ok(expr_views(&items)),
        Err(e) => Err(e),
    }
}

/// Once a prefix of a sequence fails to translate, the whole sequence fails
/// in the same way.
pub proof fn lemma_failure_persists(nodes: Seq<NodeView>, k: int)
    requires
        0 <= k <= nodes.len(),
        build_all(nodes.take(k)) is Err,
    ensures
        build_all(nodes) == build_all(nodes.take(k)),
    decreases nodes.len() - k,
{
    if k < nodes.len() {
        assert(nodes.take(k + 1).drop_last() =~= nodes.take(k));
        lemma_failure_persists(nodes, k + 1);
    } else {
        assert(nodes.take(k) =~= nodes);
    }
}

/// Whether two texts are the same sequence of characters.
fn same_text(a: &str, b: &str) -> (same: bool)
    ensures
        same == (a@ == b@),
{
    let n = a.unicode_len();
    if b.unicode_len() != n {
        return false;
    }
    let mut i: usize = 0;
    while i < n
        invariant
            i <= n,
            n == a@.len(),
            n == b@.len(),
            forall|j: int| 0 <= j < i ==> a@[j] == b@[j],
        decreases n - i,
    {
        if a.get_char(i) != b.get_char(i) {
            return false;
        }
        i += 1;
    }
    assert(a@ =~= b@);
    true
}

/// Recognizes the reserved word that `name` spells, if any.
pub fn recognize(name: &str) -> (keyword: Option<Keyword>)
    ensures
        keyword == keyword_of(name@),
{
    if same_text(name, "function") {
        Some(Keyword::Function)
    } else if same_text(name, "if") {
        Some(Keyword::If)
    } else if same_text(name, "while") {
        Some(Keyword::While)
    } else if same_text(name, "for") {
        Some(Keyword::For)
    } else if same_text(name, "repeat") {
        Some(Keyword::Repeat)
    } else if same_text(name, "{") {
        Some(Keyword::Block)
    } else if same_text(name, "break") {
        Some(Keyword::Break)
    } else if same_text(name, "next") {
        Some(Keyword::Next)
    } else {
        None
    }
}

/// Applies keyword reinterpretation to a translated callee and its
/// translated arguments.
pub fn reinterpret_call(callee: Expr, args: Vec<Expr>) -> (r: Result<Expr, BuildError>)
    ensures
        result_view(r) == reinterpret(callee@, expr_views(&args)),
{
    let keyword = match &callee {
        Expr::Symbol(name) => recognize(name.as_str()),
        _ => None,
    };
    let mut args = args;
    let found = args.len();
    match keyword {
        Some(Keyword::Function) => {
            if found != 3 {
                return Err(BuildError::StructuralArity { form: Form::Function, found });
            }
            let body = args.pop().unwrap();
            let params = args.pop().unwrap();
            Ok(Expr::FunctionDef(Box::new(params), Box::new(body)))
        },
        Some(Keyword::If) => {
            if found == 3 {
                let otherwise = args.pop().unwrap();
                let then = args.pop().unwrap();
                let cond = args.pop().unwrap();
                Ok(Expr::If(Box::new(cond), Box::new(then), Box::new(otherwise)))
            } else if found == 2 {
                let then = args.pop().unwrap();
                let cond = args.pop().unwrap();
                assert(Expr::Empty@ == ExprView::Empty);
                Ok(Expr::If(Box::new(cond), Box::new(then), Box::new(Expr::Empty)))
            } else {
                Err(BuildError::StructuralArity { form: Form::If, found })
            }
        },
        Some(Keyword::While) => {
            if found != 2 {
                return Err(BuildError::StructuralArity { form: Form::While, found });
            }
            let body = args.pop().unwrap();
            let cond = args.pop().unwrap();
            Ok(Expr::While(Box::new(cond), Box::new(body)))
        },
        Some(Keyword::For) => {
            if found != 3 {
                return Err(BuildError::StructuralArity { form: Form::For, found });
            }
            let body = args.pop().unwrap();
            let sequence = args.pop().unwrap();
            match args.pop().unwrap() {
                Expr::Symbol(var) => Ok(Expr::For(var, Box::new(sequence), Box::new(body))),
                _ => Err(BuildError::LoopVariableNotSymbol),
            }
        },
        Some(Keyword::Repeat) => {
            if found != 1 {
                return Err(BuildError::StructuralArity { form: Form::Repeat, found });
            }
            let body = args.pop().unwrap();
            Ok(Expr::Repeat(Box::new(body)))
        },
        Some(Keyword::Block) => Ok(Expr::Statements(args)),
        Some(Keyword::Break) => Ok(Expr::Break),
        Some(Keyword::Next) => Ok(Expr::Next),
        None => Ok(Expr::Call(Box::new(callee), args)),
    }
}

/// The names that the entries of an argument list declare, in order; an
/// entry without a tag contributes the empty name.
fn declared_names(arguments: &Vec<Argument>) -> (names: Vec<String>)
    ensures
        name_views(&names) == argument_names(argument_views(arguments)),
{
    let mut names: Vec<String> = Vec::new();
    let mut i: usize = 0;
    while i < arguments.len()
        invariant
            i <= arguments.len(),
            names.len() == i,
            forall|j: int| 0 <= j < i ==> names[j]@ == name_of(#[trigger] argument_views(arguments)[j].tag),
        decreases arguments.len() - i,
    {
        let name = match &arguments[i].tag {
            Some(tag) => tag.clone(),
            None => String::new(),
        };
        names.push(name);
        i += 1;
    }
    names
}

/// Translates every node of a sequence, in order, stopping at the first
/// that fails.
fn build_children(children: &Vec<ParseNode>) -> (r: Result<Vec<Expr>, BuildError>)
    ensures
        sequence_view(r) == build_all(node_views(children)),
    decreases children,
{
    let ghost nodes = node_views(children);
    let mut built: Vec<Expr> = Vec::new();
    let mut i: usize = 0;
    assert(expr_views(&built) =~= Seq::empty());
    while i < children.len()
        invariant
            i <= children.len(),
            nodes == node_views(children),
            build_all(nodes.take(i as int)) == Ok::<Seq<ExprView>, BuildError>(expr_views(&built)),
        decreases children.len() - i,
    {
        let ghost before = expr_views(&built);
        assert(nodes.take(i + 1).drop_last() =~= nodes.take(i as int));
        match sexp_to_ast(&children[i]) {
            Ok(expr) => {
                built.push(expr);
                assert(expr_views(&built) =~= before.push(expr@));
            },
            Err(e) => {
                proof {
                    lemma_failure_persists(nodes, i + 1);
                }
                return Err(e);
            },
        }
        i += 1;
    }
    assert(nodes.take(i as int) =~= nodes);
    Ok(built)
}

/// Translates a parse tree into the abstract syntax tree.
///
/// Fails on the first node, in source order, that cannot be translated: a
/// node of an unsupported kind, a call without a callee, a keyword form
/// with the wrong number of arguments, or a `for` whose loop variable is
/// not a symbol.
pub fn sexp_to_ast(node: &ParseNode) -> (r: Result<Expr, BuildError>)
    ensures
        result_view(r) == build(node@),
    decreases node,
{
    if node.is_missing() {
        return Ok(Expr::Value(Value::NA));
    }
    match node {
        ParseNode::Integer { value, .. } => Ok(Expr::Value(Value::Int(*value))),
        ParseNode::Real { bits, .. } => Ok(Expr::Value(Value::Real(*bits))),
        ParseNode::String { text, .. } => Ok(Expr::Value(Value::Str(text.clone()))),
        ParseNode::Logical { value, .. } => Ok(Expr::Value(Value::Bool(*value))),
        ParseNode::Null => Ok(Expr::Value(Value::Null)),
        ParseNode::Symbol { name } => Ok(Expr::Symbol(name.clone())),
        ParseNode::Call { children } => match build_children(children) {
            Ok(built) => {
                let mut built = built;
                if built.len() == 0 {
                    Err(BuildError::StructuralArity { form: Form::Call, found: 0 })
                } else {
                    let ghost all = expr_views(&built);
                    let callee = built.remove(0);
                    assert(expr_views(&built) =~= all.skip(1));
                    reinterpret_call(callee, built)
                }
            },
            Err(e) => Err(e),
        },
        ParseNode::ArgumentList { arguments } => Ok(Expr::ArgList(declared_names(arguments))),
        ParseNode::StatementSequence { children } => match build_children(children) {
            Ok(built) => {
                let mut built = built;
                if built.len() == 1 {
                    Ok(built.remove(0))
                } else {
                    Ok(Expr::Statements(built))
                }
            },
            Err(e) => Err(e),
        },
        ParseNode::Other { type_code } => Err(
            BuildError::UnsupportedConstruct { type_code: *type_code },
        ),
    }
}

} // verus!
