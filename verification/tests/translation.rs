use analysr::{sexp_to_ast, Argument, BuildError, Expr, ParseNode, Value};

/// A value as it is printed: reals are shown as numbers.
#[derive(Debug, PartialEq)]
enum ShownValue {
    Real(f64),
    Int(i64),
    Str(String),
    Bool(bool),
    Null,
    NA,
}

/// An expression as it is printed.
#[derive(Debug, PartialEq)]
enum Shown {
    Value(ShownValue),
    Symbol(String),
    Statements(Vec<Shown>),
    If(Box<Shown>, Box<Shown>, Box<Shown>),
    For(String, Box<Shown>, Box<Shown>),
    While(Box<Shown>, Box<Shown>),
    Repeat(Box<Shown>),
    Call(Box<Shown>, Vec<Shown>),
    FunctionDef(Box<Shown>, Box<Shown>),
    ArgList(Vec<String>),
    Break,
    Next,
    Empty,
}

fn shown_value(value: &Value) -> ShownValue {
    match value {
        Value::Real(bits) => ShownValue::Real(f64::from_bits(*bits)),
        Value::Int(v) => ShownValue::Int(*v),
        Value::Str(s) => ShownValue::Str(s.clone()),
        Value::Bool(b) => ShownValue::Bool(*b),
        Value::Null => ShownValue::Null,
        Value::NA => ShownValue::NA,
    }
}

fn shown(expr: &Expr) -> Shown {
    let boxed = |e: &Expr| Box::new(shown(e));
    match expr {
        Expr::Value(v) => Shown::Value(shown_value(v)),
        Expr::Symbol(s) => Shown::Symbol(s.clone()),
        Expr::Statements(items) => Shown::Statements(items.iter().map(shown).collect()),
        Expr::If(c, t, e) => Shown::If(boxed(c), boxed(t), boxed(e)),
        Expr::For(v, s, b) => Shown::For(v.clone(), boxed(s), boxed(b)),
        Expr::While(c, b) => Shown::While(boxed(c), boxed(b)),
        Expr::Repeat(b) => Shown::Repeat(boxed(b)),
        Expr::Call(f, args) => Shown::Call(boxed(f), args.iter().map(shown).collect()),
        Expr::FunctionDef(p, b) => Shown::FunctionDef(boxed(p), boxed(b)),
        Expr::ArgList(names) => Shown::ArgList(names.clone()),
        Expr::Break => Shown::Break,
        Expr::Next => Shown::Next,
        Expr::Empty => Shown::Empty,
    }
}

fn sym(name: &str) -> ParseNode {
    ParseNode::Symbol { name: name.to_string() }
}

fn number(x: f64) -> ParseNode {
    ParseNode::Real { bits: x.to_bits(), missing: false }
}

fn integer(value: i64) -> ParseNode {
    ParseNode::Integer { value, missing: false }
}

fn text(s: &str) -> ParseNode {
    ParseNode::String { text: s.to_string(), missing: false }
}

fn call(children: Vec<ParseNode>) -> ParseNode {
    ParseNode::Call { children }
}

/// What the host parser hands over for a whole program: its statements.
fn program(children: Vec<ParseNode>) -> ParseNode {
    ParseNode::StatementSequence { children }
}

fn real_value(x: f64) -> Expr {
    Expr::Value(Value::Real(x.to_bits()))
}

fn name_expr(name: &str) -> Expr {
    Expr::Symbol(name.to_string())
}

fn boxed(e: Expr) -> Box<Expr> {
    Box::new(e)
}

/// `if (x == 1) 1 else 2`
fn if_else_program() -> ParseNode {
    program(vec![call(vec![
        sym("if"),
        call(vec![sym("=="), sym("x"), number(1.0)]),
        number(1.0),
        number(2.0),
    ])])
}

/// `while (1) { print("hello") }`
fn while_program() -> ParseNode {
    program(vec![call(vec![
        sym("while"),
        number(1.0),
        call(vec![sym("{"), call(vec![sym("print"), text("hello")])]),
    ])])
}

/// `for (i in 1:10) { i + 5 }`
fn for_program() -> ParseNode {
    program(vec![call(vec![
        sym("for"),
        sym("i"),
        call(vec![sym(":"), number(1.0), number(10.0)]),
        call(vec![sym("{"), call(vec![sym("+"), sym("i"), number(5.0)])]),
    ])])
}

/// `repeat { 1 + 1 }`
fn repeat_program() -> ParseNode {
    program(vec![call(vec![
        sym("repeat"),
        call(vec![sym("{"), call(vec![sym("+"), number(1.0), number(1.0)])]),
    ])])
}

#[test]
fn values() {
    assert_eq!(
        sexp_to_ast(&ParseNode::Logical { value: false, missing: true }),
        Ok(Expr::Value(Value::NA))
    );
    assert_eq!(sexp_to_ast(&integer(1)), Ok(Expr::Value(Value::Int(1))));
    assert_eq!(
        sexp_to_ast(&number(1.0)),
        Ok(Expr::Value(Value::Real(1.0f64.to_bits())))
    );
    assert_eq!(
        sexp_to_ast(&text("hello world")),
        Ok(Expr::Value(Value::Str("hello world".to_string())))
    )
}

#[test]
fn symbol() {
    assert_eq!(
        sexp_to_ast(&program(vec![sym("x")])),
        Ok(Expr::Symbol("x".to_string()))
    );
}

#[test]
fn controls() {
    assert_eq!(
        format!("{:?}", shown(&sexp_to_ast(&if_else_program()).unwrap())),
        "If(Call(Symbol(\"==\"), [Symbol(\"x\"), Value(Real(1.0))]), Value(Real(1.0)), Value(Real(2.0)))");

    assert_eq!(
        format!("{:?}", shown(&sexp_to_ast(&while_program()).unwrap())),
        "While(Value(Real(1.0)), Statements([Call(Symbol(\"print\"), [Value(Str(\"hello\"))])]))"
    );

    assert_eq!(
        format!("{:?}", shown(&sexp_to_ast(&for_program()).unwrap())),
        "For(\"i\", Call(Symbol(\":\"), [Value(Real(1.0)), Value(Real(10.0))]), Statements([Call(Symbol(\"+\"), [Symbol(\"i\"), Value(Real(5.0))])]))"
    );

    assert_eq!(
        format!("{:?}", shown(&sexp_to_ast(&repeat_program()).unwrap())),
        "Repeat(Statements([Call(Symbol(\"+\"), [Value(Real(1.0)), Value(Real(1.0))])]))"
    )
}

#[test]
fn if_else_translates_to_conditional() {
    let expected = Expr::If(
        boxed(Expr::Call(boxed(name_expr("==")), vec![name_expr("x"), real_value(1.0)])),
        boxed(real_value(1.0)),
        boxed(real_value(2.0)),
    );
    assert_eq!(sexp_to_ast(&if_else_program()), Ok(expected));
}

#[test]
fn for_translates_to_loop_over_sequence() {
    let expected = Expr::For(
        "i".to_string(),
        boxed(Expr::Call(boxed(name_expr(":")), vec![real_value(1.0), real_value(10.0)])),
        boxed(Expr::Statements(vec![Expr::Call(
            boxed(name_expr("+")),
            vec![name_expr("i"), real_value(5.0)],
        )])),
    );
    assert_eq!(sexp_to_ast(&for_program()), Ok(expected));
}

#[test]
fn repeat_translates_to_loop_over_block() {
    let expected = Expr::Repeat(boxed(Expr::Statements(vec![Expr::Call(
        boxed(name_expr("+")),
        vec![real_value(1.0), real_value(1.0)],
    )])));
    assert_eq!(sexp_to_ast(&repeat_program()), Ok(expected));
}

#[test]
fn while_translates_to_loop_with_condition() {
    let expected = Expr::While(
        boxed(real_value(1.0)),
        boxed(Expr::Statements(vec![Expr::Call(
            boxed(name_expr("print")),
            vec![Expr::Value(Value::Str("hello".to_string()))],
        )])),
    );
    assert_eq!(sexp_to_ast(&while_program()), Ok(expected));
}

#[test]
fn missing_scalar_of_any_kind_is_na() {
    let missing = vec![
        ParseNode::Integer { value: 42, missing: true },
        ParseNode::Real { bits: 2.5f64.to_bits(), missing: true },
        ParseNode::String { text: "kept nowhere".to_string(), missing: true },
        ParseNode::Logical { value: true, missing: true },
    ];
    for node in &missing {
        assert_eq!(sexp_to_ast(node), Ok(Expr::Value(Value::NA)));
    }
}

#[test]
fn present_scalars_keep_their_payload() {
    assert_eq!(sexp_to_ast(&integer(-7)), Ok(Expr::Value(Value::Int(-7))));
    assert_eq!(
        sexp_to_ast(&integer(i64::MAX)),
        Ok(Expr::Value(Value::Int(9223372036854775807)))
    );
    assert_eq!(
        sexp_to_ast(&number(2.5)),
        Ok(Expr::Value(Value::Real(0x4004000000000000)))
    );
    assert_eq!(
        sexp_to_ast(&ParseNode::Logical { value: true, missing: false }),
        Ok(Expr::Value(Value::Bool(true)))
    );
    assert_eq!(
        sexp_to_ast(&text("")),
        Ok(Expr::Value(Value::Str(String::new())))
    );
    assert_eq!(sexp_to_ast(&ParseNode::Null), Ok(Expr::Value(Value::Null)));
}

#[test]
fn single_statement_is_unwrapped() {
    let child = call(vec![sym("f"), integer(1)]);
    let alone = sexp_to_ast(&child);
    let wrapped = sexp_to_ast(&program(vec![call(vec![sym("f"), integer(1)])]));
    assert_eq!(wrapped, alone);
    assert_eq!(
        wrapped,
        Ok(Expr::Call(boxed(name_expr("f")), vec![Expr::Value(Value::Int(1))]))
    );
}

#[test]
fn single_failing_statement_fails_alike() {
    let wrapped = sexp_to_ast(&program(vec![ParseNode::Other { type_code: 4 }]));
    assert_eq!(sexp_to_ast(&ParseNode::Other { type_code: 4 }), wrapped);
    assert_eq!(wrapped, Err(BuildError::UnsupportedConstruct { type_code: 4 }));
}

#[test]
fn several_statements_stay_a_sequence() {
    assert_eq!(
        sexp_to_ast(&program(vec![sym("a"), sym("b")])),
        Ok(Expr::Statements(vec![name_expr("a"), name_expr("b")]))
    );
    assert_eq!(sexp_to_ast(&program(vec![])), Ok(Expr::Statements(vec![])));
}

#[test]
fn nested_single_statement_sequences_unwrap_fully() {
    let node = program(vec![program(vec![sym("x")])]);
    assert_eq!(sexp_to_ast(&node), Ok(name_expr("x")));
}

#[test]
fn block_is_never_collapsed() {
    assert_eq!(
        sexp_to_ast(&call(vec![sym("{"), sym("x")])),
        Ok(Expr::Statements(vec![name_expr("x")]))
    );
    assert_eq!(sexp_to_ast(&call(vec![sym("{")])), Ok(Expr::Statements(vec![])));
    assert_eq!(
        sexp_to_ast(&call(vec![sym("{"), sym("x"), sym("y"), sym("z")])),
        Ok(Expr::Statements(vec![name_expr("x"), name_expr("y"), name_expr("z")]))
    );
}

#[test]
fn if_without_else_gets_empty_branch() {
    let node = call(vec![sym("if"), sym("c"), integer(1)]);
    assert_eq!(
        sexp_to_ast(&node),
        Ok(Expr::If(
            boxed(name_expr("c")),
            boxed(Expr::Value(Value::Int(1))),
            boxed(Expr::Empty)
        ))
    );
}

#[test]
fn for_loop_variable_is_the_symbol_text() {
    let node = call(vec![sym("for"), sym("item"), sym("xs"), sym("body")]);
    match sexp_to_ast(&node) {
        Ok(Expr::For(var, sequence, body)) => {
            assert_eq!(var, "item");
            assert_eq!(*sequence, name_expr("xs"));
            assert_eq!(*body, name_expr("body"));
        }
        other => panic!("not a loop: {:?}", other),
    }
}

#[test]
fn function_definition_drops_its_first_argument() {
    let params = ParseNode::ArgumentList {
        arguments: vec![Argument { tag: Some("x".to_string()), value: sym("") }],
    };
    let node = call(vec![sym("function"), ParseNode::Null, params, sym("x")]);
    assert_eq!(
        sexp_to_ast(&node),
        Ok(Expr::FunctionDef(
            boxed(Expr::ArgList(vec!["x".to_string()])),
            boxed(name_expr("x"))
        ))
    );
}

#[test]
fn break_and_next_ignore_arguments() {
    assert_eq!(sexp_to_ast(&call(vec![sym("break")])), Ok(Expr::Break));
    assert_eq!(sexp_to_ast(&call(vec![sym("next")])), Ok(Expr::Next));
    assert_eq!(sexp_to_ast(&call(vec![sym("break"), integer(1), integer(2)])), Ok(Expr::Break));
    assert_eq!(sexp_to_ast(&call(vec![sym("next"), sym("x")])), Ok(Expr::Next));
}

#[test]
fn ordinary_calls_keep_callee_and_arguments() {
    assert_eq!(
        sexp_to_ast(&call(vec![sym("f")])),
        Ok(Expr::Call(boxed(name_expr("f")), vec![]))
    );
    // A call whose callee is itself a call.
    let node = call(vec![call(vec![sym("g"), integer(1)]), integer(2)]);
    assert_eq!(
        sexp_to_ast(&node),
        Ok(Expr::Call(
            boxed(Expr::Call(boxed(name_expr("g")), vec![Expr::Value(Value::Int(1))])),
            vec![Expr::Value(Value::Int(2))]
        ))
    );
    // A callee that is a string spelling a reserved word is no keyword.
    let node = call(vec![text("break")]);
    assert_eq!(
        sexp_to_ast(&node),
        Ok(Expr::Call(boxed(Expr::Value(Value::Str("break".to_string()))), vec![]))
    );
}

#[test]
fn reserved_words_are_matched_exactly() {
    for name in ["If", "iff", "i", "", "fo", "for ", "Repeat", "{}", "functio", "whilé"] {
        assert_eq!(
            sexp_to_ast(&call(vec![sym(name)])),
            Ok(Expr::Call(boxed(name_expr(name)), vec![])),
            "callee {:?}",
            name
        );
    }
}

#[test]
fn argument_list_keeps_names_only() {
    let node = ParseNode::ArgumentList {
        arguments: vec![
            Argument { tag: Some("x".to_string()), value: sym("") },
            Argument { tag: None, value: integer(3) },
            // A default value is never translated, whatever it is.
            Argument { tag: Some("y".to_string()), value: ParseNode::Other { type_code: 9 } },
        ],
    };
    assert_eq!(
        sexp_to_ast(&node),
        Ok(Expr::ArgList(vec!["x".to_string(), String::new(), "y".to_string()]))
    );
    assert_eq!(
        sexp_to_ast(&ParseNode::ArgumentList { arguments: vec![] }),
        Ok(Expr::ArgList(vec![]))
    );
}
