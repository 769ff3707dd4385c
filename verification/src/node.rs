use vstd::prelude::*;

verus! {

/// The semantic category of a parse node.
#[derive(Clone, Copy, Debug, PartialEq, Eq, Structural)]
pub enum Kind {
    Integer,
    Real,
    String,
    Logical,
    Null,
    Symbol,
    Call,
    ArgumentList,
    StatementSequence,
    Other,
}

impl Kind {
    /// The four kinds that carry a scalar payload and may be flagged missing.
    pub open spec fn is_scalar(self) -> bool {
        self == Kind::Integer || self == Kind::Real || self == Kind::String || self
            == Kind::Logical
    }
}

/// One entry of an argument list: the declared parameter name, if any, and
/// the default-value expression attached to it.
#[derive(Debug, PartialEq)]
pub struct Argument {
    pub tag: Option<String>,
    pub value: ParseNode,
}

/// An already-parsed unit of source syntax, as handed over by the host parser.
#[derive(Debug, PartialEq)]
#[allow(inconsistent_fields)]
pub enum ParseNode {
    Integer { value: i64, missing: bool },
    /// `bits` is the IEEE 754 binary64 bit pattern of the number.
    Real { bits: u64, missing: bool },
    String { text: String, missing: bool },
    Logical { value: bool, missing: bool },
    Null,
    Symbol { name: String },
    /// The first child is the callee, the remaining ones are the arguments.
    Call { children: Vec<ParseNode> },
    ArgumentList { arguments: Vec<Argument> },
    StatementSequence { children: Vec<ParseNode> },
    /// Any construct of the host parser outside the supported set, with the
    /// host's numeric type code.
    Other { type_code: u32 },
}

/// Mathematical model of an [`Argument`].
pub ghost struct ArgumentView {
    pub tag: Option<Seq<char>>,
    pub value: NodeView,
}

/// Mathematical model of a [`ParseNode`].
#[allow(inconsistent_fields)]
pub ghost enum NodeView {
    Integer { value: i64, missing: bool },
    Real { bits: u64, missing: bool },
    String { text: Seq<char>, missing: bool },
    Logical { value: bool, missing: bool },
    Null,
    Symbol { name: Seq<char> },
    Call { children: Seq<NodeView> },
    ArgumentList { arguments: Seq<ArgumentView> },
    StatementSequence { children: Seq<NodeView> },
    Other { type_code: u32 },
}

/// The model of an optional name tag.
pub open spec fn tag_view(tag: Option<String>) -> Option<Seq<char>> {
    match tag {
        Some(s) => Some(s@),
        None => None,
    }
}

impl Argument {
    /// The mathematical model of this entry.
    pub open spec fn model(&self) -> ArgumentView
        decreases self,
    {
        ArgumentView { tag: tag_view(self.tag), value: self.value.model() }
    }
}

impl View for Argument {
    type V = ArgumentView;

    open spec fn view(&self) -> ArgumentView {
        self.model()
    }
}

impl ParseNode {
    /// The mathematical model of this node.
    pub open spec fn model(&self) -> NodeView
        decreases self,
    {
        match self {
            ParseNode::Integer { value, missing } => NodeView::Integer {
                value: *value,
                missing: *missing,
            },
            ParseNode::Real { bits, missing } => NodeView::Real { bits: *bits, missing: *missing },
            ParseNode::String { text, missing } => NodeView::String {
                text: text@,
                missing: *missing,
            },
            ParseNode::Logical { value, missing } => NodeView::Logical {
                value: *value,
                missing: *missing,
            },
            ParseNode::Null => NodeView::Null,
            ParseNode::Symbol { name } => NodeView::Symbol { name: name@ },
            ParseNode::Call { children } => NodeView::Call { children: node_views(children) },
            ParseNode::ArgumentList { arguments } => NodeView::ArgumentList {
                arguments: argument_views(arguments),
            },
            ParseNode::StatementSequence { children } => NodeView::StatementSequence {
                children: node_views(children),
            },
            ParseNode::Other { type_code } => NodeView::Other { type_code: *type_code },
        }
    }
}

impl View for ParseNode {
    type V = NodeView;

    open spec fn view(&self) -> NodeView {
        self.model()
    }
}

/// The models of a vector of nodes, in order.
pub open spec fn node_views(nodes: &Vec<ParseNode>) -> Seq<NodeView>
    decreases nodes,
{
    Seq::new(
        nodes.len() as nat,
        |i: int|
            if 0 <= i < nodes.len() {
                nodes[i].model()
            } else {
                NodeView::Null
            },
    )
}

/// The models of a vector of arguments, in order.
pub open spec fn argument_views(arguments: &Vec<Argument>) -> Seq<ArgumentView>
    decreases arguments,
{
    Seq::new(
        arguments.len() as nat,
        |i: int|
            if 0 <= i < arguments.len() {
                arguments[i].model()
            } else {
                ArgumentView { tag: None, value: NodeView::Null }
            },
    )
}

/// A typed extraction was asked of a node whose kind does not provide it.
#[derive(Clone, Copy, Debug, PartialEq, Eq, Structural)]
pub struct ExtractionError {
    /// The kind the node actually has.
    pub found: Kind,
}

impl NodeView {
    /// The kind of the node.
    pub open spec fn kind(self) -> Kind {
        match self {
            NodeView::Integer { .. } => Kind::Integer,
            NodeView::Real { .. } => Kind::Real,
            NodeView::String { .. } => Kind::String,
            NodeView::Logical { .. } => Kind::Logical,
            NodeView::Null => Kind::Null,
            NodeView::Symbol { .. } => Kind::Symbol,
            NodeView::Call { .. } => Kind::Call,
            NodeView::ArgumentList { .. } => Kind::ArgumentList,
            NodeView::StatementSequence { .. } => Kind::StatementSequence,
            NodeView::Other { .. } => Kind::Other,
        }
    }

    /// The missing-value flag of a scalar node; `false` for every other kind.
    pub open spec fn is_missing(self) -> bool {
        match self {
            NodeView::Integer { missing, .. } => missing,
            NodeView::Real { missing, .. } => missing,
            NodeView::String { missing, .. } => missing,
            NodeView::Logical { missing, .. } => missing,
            _ => false,
        }
    }

    /// What every failed extraction on this node reports.
    pub open spec fn mismatch(self) -> ExtractionError {
        ExtractionError { found: self.kind() }
    }

    /// The payload of an integer node; a mismatch for every other kind.
    pub open spec fn as_int(self) -> Result<i64, ExtractionError> {
        match self {
            NodeView::Integer { value, .. } => Ok(value),
            _ => Err(self.mismatch()),
        }
    }

    /// The bit pattern held by a real node; a mismatch for every other kind.
    pub open spec fn as_real(self) -> Result<u64, ExtractionError> {
        match self {
            NodeView::Real { bits, .. } => Ok(bits),
            _ => Err(self.mismatch()),
        }
    }

    /// The payload of a logical node; a mismatch for every other kind.
    pub open spec fn as_bool(self) -> Result<bool, ExtractionError> {
        match self {
            NodeView::Logical { value, .. } => Ok(value),
            _ => Err(self.mismatch()),
        }
    }

    /// The text of a string node; a mismatch for every other kind.
    pub open spec fn as_string(self) -> Result<Seq<char>, ExtractionError> {
        match self {
            NodeView::String { text, .. } => Ok(text),
            _ => Err(self.mismatch()),
        }
    }

    /// The name of a symbol node; a mismatch for every other kind.
    pub open spec fn as_symbol_text(self) -> Result<Seq<char>, ExtractionError> {
        match self {
            NodeView::Symbol { name } => Ok(name),
            _ => Err(self.mismatch()),
        }
    }

    /// The ordered children of a call, an argument list or a statement
    /// sequence. The children of an argument list are the expressions
    /// attached to its entries.
    pub open spec fn children(self) -> Result<Seq<NodeView>, ExtractionError> {
        match self {
            NodeView::Call { children } => Ok(children),
            NodeView::ArgumentList { arguments } => Ok(
                arguments.map_values(|a: ArgumentView| a.value),
            ),
            NodeView::StatementSequence { children } => Ok(children),
            _ => Err(self.mismatch()),
        }
    }
}

/// Whether a borrowed text result stands for the given model result.
pub open spec fn text_result_is(
    r: Result<&str, ExtractionError>,
    model: Result<Seq<char>, ExtractionError>,
) -> bool {
    match model {
        Ok(text) => r matches Ok(s) && s@ == text,
        Err(e) => r == Err::<&str, ExtractionError>(e),
    }
}

/// Whether a vector of borrowed nodes stands for the given model result.
pub open spec fn children_result_is(
    r: Result<Vec<&ParseNode>, ExtractionError>,
    model: Result<Seq<NodeView>, ExtractionError>,
) -> bool {
    match model {
        Ok(nodes) => r matches Ok(v) && v@.len() == nodes.len() && forall|i: int|
            0 <= i < nodes.len() ==> (#[trigger] v@[i])@ == nodes[i],
        Err(e) => r == Err::<Vec<&ParseNode>, ExtractionError>(e),
    }
}

impl ParseNode {
    /// The kind of this node.
    pub fn classify(&self) -> (k: Kind)
        ensures
            k == self@.kind(),
    {
        match self {
            ParseNode::Integer { .. } => Kind::Integer,
            ParseNode::Real { .. } => Kind::Real,
            ParseNode::String { .. } => Kind::String,
            ParseNode::Logical { .. } => Kind::Logical,
            ParseNode::Null => Kind::Null,
            ParseNode::Symbol { .. } => Kind::Symbol,
            ParseNode::Call { .. } => Kind::Call,
            ParseNode::ArgumentList { .. } => Kind::ArgumentList,
            ParseNode::StatementSequence { .. } => Kind::StatementSequence,
            ParseNode::Other { .. } => Kind::Other,
        }
    }

    /// Whether this node is a scalar flagged as missing. A node of any other
    /// kind is never missing.
    pub fn is_missing(&self) -> (b: bool)
        ensures
            b == self@.is_missing(),
    {
        match self {
            ParseNode::Integer { missing, .. } => *missing,
            ParseNode::Real { missing, .. } => *missing,
            ParseNode::String { missing, .. } => *missing,
            ParseNode::Logical { missing, .. } => *missing,
            _ => false,
        }
    }

    fn mismatch(&self) -> (e: ExtractionError)
        ensures
            e == self@.mismatch(),
    {
        ExtractionError { found: self.classify() }
    }

    /// The payload of an integer node, whether or not it is flagged missing.
    pub fn as_int(&self) -> (r: Result<i64, ExtractionError>)
        ensures
            r == self@.as_int(),
    {
        match self {
            ParseNode::Integer { value, .. } => Ok(*value),
            _ => Err(self.mismatch()),
        }
    }

    /// The payload of a real node, as its IEEE 754 binary64 bit pattern.
    pub fn as_real(&self) -> (r: Result<u64, ExtractionError>)
        ensures
            r == self@.as_real(),
    {
        match self {
            ParseNode::Real { bits, .. } => Ok(*bits),
            _ => Err(self.mismatch()),
        }
    }

    /// The payload of a logical node.
    pub fn as_bool(&self) -> (r: Result<bool, ExtractionError>)
        ensures
            r == self@.as_bool(),
    {
        match self {
            ParseNode::Logical { value, .. } => Ok(*value),
            _ => Err(self.mismatch()),
        }
    }

    /// The payload of a string node.
    pub fn as_string(&self) -> (r: Result<&str, ExtractionError>)
        ensures
            text_result_is(r, self@.as_string()),
    {
        match self {
            ParseNode::String { text, .. } => Ok(text.as_str()),
            _ => Err(self.mismatch()),
        }
    }

    /// The text of a symbol node.
    pub fn as_symbol_text(&self) -> (r: Result<&str, ExtractionError>)
        ensures
            text_result_is(r, self@.as_symbol_text()),
    {
        match self {
            ParseNode::Symbol { name } => Ok(name.as_str()),
            _ => Err(self.mismatch()),
        }
    }

    /// The children of a call, an argument list or a statement sequence, in
    /// source order.
    pub fn children(&self) -> (r: Result<Vec<&ParseNode>, ExtractionError>)
        ensures
            children_result_is(r, self@.children()),
    {
        match self {
            ParseNode::Call { children } => {
                let out = borrow_all(children);
                assert(self@.children() == Ok::<Seq<NodeView>, ExtractionError>(
                    node_views(children),
                ));
                Ok(out)
            },
            ParseNode::StatementSequence { children } => {
                let out = borrow_all(children);
                assert(self@.children() == Ok::<Seq<NodeView>, ExtractionError>(
                    node_views(children),
                ));
                Ok(out)
            },
            ParseNode::ArgumentList { arguments } => {
                let mut out: Vec<&ParseNode> = Vec::new();
                let mut i: usize = 0;
                while i < arguments.len()
                    invariant
                        i <= arguments.len(),
                        out@.len() == i,
                        forall|j: int| 0 <= j < i ==> (#[trigger] out@[j])@ == arguments[j].value@,
                    decreases arguments.len() - i,
                {
                    out.push(&arguments[i].value);
                    i += 1;
                }
                proof {
                    let values = argument_views(arguments).map_values(|a: ArgumentView| a.value);
                    assert forall|j: int| 0 <= j < values.len() implies (#[trigger] out@[j])@
                        == values[j] by {
                    }
                }
                Ok(out)
            },
            _ => Err(self.mismatch()),
        }
    }
}

/// Borrows every node of a vector, in order.
fn borrow_all(nodes: &Vec<ParseNode>) -> (out: Vec<&ParseNode>)
    ensures
        out@.len() == nodes.len(),
        forall|i: int| 0 <= i < nodes.len() ==> (#[trigger] out@[i])@ == node_views(nodes)[i],
{
    let mut out: Vec<&ParseNode> = Vec::new();
    let mut i: usize = 0;
    while i < nodes.len()
        invariant
            i <= nodes.len(),
            out@.len() == i,
            forall|j: int| 0 <= j < i ==> (#[trigger] out@[j])@ == nodes[j]@,
        decreases nodes.len() - i,
    {
        out.push(&nodes[i]);
        i += 1;
    }
    out
}

} // verus!
