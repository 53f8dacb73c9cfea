//! The untyped syntax tree of expressions.
use vstd::prelude::*;
use crate::lang::ast::{
    Annotation,
    AnnotationView,
    Arg,
    ArgView,
    CallArg,
    CallArgView,
    DataType,
    DataTypeView,
    ModuleKind,
    NonEmpty,
    NonEmptyView,
    Pattern,
    PatternView,
    Span,
    TypeAlias,
    TypeAliasView,
    Use,
    UseView,
};

verus! {

#[derive(Clone, Copy, Debug, PartialEq, Eq, Structural)]
#[allow(inconsistent_fields)]
pub enum BinOp {
    And,
    Or,
    Eq,
    NotEq,
    LtInt,
    LtEqInt,
    GtEqInt,
    GtInt,
    AddInt,
    SubInt,
    MultInt,
    DivInt,
    ModInt,
}

#[derive(Clone, Copy, Debug, PartialEq, Eq, Structural)]
#[allow(inconsistent_fields)]
pub enum AssignmentKind {
    Let,
    Assert,
    Check,
}

#[derive(Clone, Copy, Debug, PartialEq, Eq, Structural)]
#[allow(inconsistent_fields)]
pub enum TodoKind {
    Keyword,
    EmptyFunction,
}

#[derive(Debug, PartialEq, Eq)]
pub struct IfBranch {
    pub condition: UntypedExpr,
    pub body: UntypedExpr,
    pub location: Span,
}

#[derive(Debug, PartialEq, Eq)]
pub struct Clause {
    pub location: Span,
    pub pattern: Vec<Pattern>,
    pub alternative_patterns: Vec<Vec<Pattern>>,
    pub guard: Option<UntypedExpr>,
    pub then_: UntypedExpr,
}

pub type UntypedClause = Clause;

#[derive(Debug, PartialEq, Eq)]
pub struct RecordUpdateSpread {
    pub base: Box<UntypedExpr>,
    pub location: Span,
}

#[derive(Debug, PartialEq, Eq)]
pub struct UntypedRecordUpdateArg {
    pub label: String,
    pub location: Span,
    pub value: UntypedExpr,
}

#[derive(Debug, PartialEq, Eq)]
#[allow(inconsistent_fields)]
pub enum UntypedExpr {
    Int { location: Span, value: String },
    String { location: Span, value: String },
    Var { location: Span, name: String },
    Sequence { location: Span, expressions: Vec<UntypedExpr> },
    Fn {
        location: Span,
        is_capture: bool,
        arguments: Vec<Arg>,
        body: Box<UntypedExpr>,
        return_annotation: Option<Annotation>,
    },
    List { location: Span, elements: Vec<UntypedExpr>, tail: Option<Box<UntypedExpr>> },
    Call { location: Span, fun: Box<UntypedExpr>, arguments: Vec<CallArg<UntypedExpr>> },
    BinOp { location: Span, name: BinOp, left: Box<UntypedExpr>, right: Box<UntypedExpr> },
    PipeLine { expressions: Box<NonEmpty<UntypedExpr>> },
    Assignment {
        location: Span,
        value: Box<UntypedExpr>,
        pattern: Pattern,
        kind: AssignmentKind,
        annotation: Option<Annotation>,
    },
    Try {
        location: Span,
        value: Box<UntypedExpr>,
        pattern: Pattern,
        then_: Box<UntypedExpr>,
        annotation: Option<Annotation>,
    },
    When { location: Span, subjects: Vec<UntypedExpr>, clauses: Vec<Clause> },
    If { location: Span, branches: Box<NonEmpty<IfBranch>>, final_else: Box<UntypedExpr> },
    FieldAccess { location: Span, label: String, container: Box<UntypedExpr> },
    RecordUpdate {
        location: Span,
        constructor: Box<UntypedExpr>,
        spread: RecordUpdateSpread,
        arguments: Vec<UntypedRecordUpdateArg>,
    },
    Negate { location: Span, value: Box<UntypedExpr> },
    Todo { kind: TodoKind, location: Span, label: Option<String> },
}

pub struct IfBranchView {
    pub condition: ExprView,
    pub body: ExprView,
    pub location: Span,
}

pub struct ClauseView {
    pub location: Span,
    pub pattern: Seq<PatternView>,
    pub alternative_patterns: Seq<Seq<PatternView>>,
    pub guard: Option<ExprView>,
    pub then_: ExprView,
}

pub struct RecordUpdateSpreadView {
    pub base: Box<ExprView>,
    pub location: Span,
}

pub struct RecordUpdateArgView {
    pub label: Seq<char>,
    pub location: Span,
    pub value: ExprView,
}

#[allow(inconsistent_fields)]
pub enum ExprView {
    Int { location: Span, value: Seq<char> },
    String { location: Span, value: Seq<char> },
    Var { location: Span, name: Seq<char> },
    Sequence { location: Span, expressions: Seq<ExprView> },
    Fn {
        location: Span,
        is_capture: bool,
        arguments: Seq<ArgView>,
        body: Box<ExprView>,
        return_annotation: Option<AnnotationView>,
    },
    List { location: Span, elements: Seq<ExprView>, tail: Option<Box<ExprView>> },
    Call { location: Span, fun: Box<ExprView>, arguments: Seq<CallArgView<ExprView>> },
    BinOp { location: Span, name: BinOp, left: Box<ExprView>, right: Box<ExprView> },
    PipeLine { expressions: Box<NonEmptyView<ExprView>> },
    Assignment {
        location: Span,
        value: Box<ExprView>,
        pattern: PatternView,
        kind: AssignmentKind,
        annotation: Option<AnnotationView>,
    },
    Try {
        location: Span,
        value: Box<ExprView>,
        pattern: PatternView,
        then_: Box<ExprView>,
        annotation: Option<AnnotationView>,
    },
    When { location: Span, subjects: Seq<ExprView>, clauses: Seq<ClauseView> },
    If { location: Span, branches: Box<NonEmptyView<IfBranchView>>, final_else: Box<ExprView> },
    FieldAccess { location: Span, label: Seq<char>, container: Box<ExprView> },
    RecordUpdate {
        location: Span,
        constructor: Box<ExprView>,
        spread: RecordUpdateSpreadView,
        arguments: Seq<RecordUpdateArgView>,
    },
    Negate { location: Span, value: Box<ExprView> },
    Todo { kind: TodoKind, location: Span, label: Option<Seq<char>> },
}

/// Whether every span in each of the patterns is a range of a text of
/// `len` bytes.
pub open spec fn patterns_within(patterns: Seq<PatternView>, len: nat) -> bool {
    forall|i: int| 0 <= i < patterns.len() ==> (#[trigger] patterns[i]).spans_within(len)
}

/// Whether every span in each of the expressions is a range of a text of
/// `len` bytes.
pub open spec fn exprs_within(items: Seq<ExprView>, len: nat) -> bool {
    forall|i: int| 0 <= i < items.len() ==> (#[trigger] items[i]).spans_within(len)
}

/// Whether every span in each of the parameters is a range of a text of
/// `len` bytes.
pub open spec fn args_within(items: Seq<ArgView>, len: nat) -> bool {
    forall|i: int| 0 <= i < items.len() ==> (#[trigger] items[i]).spans_within(len)
}

/// Whether every span in the annotation, where there is one, is a range
/// of a text of `len` bytes.
pub open spec fn annotation_within(annotation: Option<AnnotationView>, len: nat) -> bool {
    match annotation {
        Some(a) => a.spans_within(len),
        None => true,
    }
}

/// Whether every span in each of the arguments is a range of a text of
/// `len` bytes.
pub open spec fn call_args_within(items: Seq<CallArgView<ExprView>>, len: nat) -> bool {
    forall|i: int|
        0 <= i < items.len() ==> (#[trigger] items[i]).location.within(len)
            && items[i].value.spans_within(len)
}

/// Whether every span in each of the fields is a range of a text of `len`
/// bytes.
pub open spec fn update_args_within(items: Seq<RecordUpdateArgView>, len: nat) -> bool {
    forall|i: int|
        0 <= i < items.len() ==> (#[trigger] items[i]).location.within(len)
            && items[i].value.spans_within(len)
}

/// Whether every span in the clause is a range of a text of `len` bytes.
pub open spec fn clause_within(clause: ClauseView, len: nat) -> bool {
    &&& clause.location.within(len)
    &&& patterns_within(clause.pattern, len)
    &&& forall|j: int|
        0 <= j < clause.alternative_patterns.len() ==> patterns_within(
            #[trigger] clause.alternative_patterns[j],
            len,
        )
    &&& clause.then_.spans_within(len)
    &&& match clause.guard {
        Some(g) => g.spans_within(len),
        None => true,
    }
}

pub open spec fn clauses_within(items: Seq<ClauseView>, len: nat) -> bool {
    forall|i: int| 0 <= i < items.len() ==> clause_within(#[trigger] items[i], len)
}

/// Whether every span in the branch is a range of a text of `len` bytes.
pub open spec fn branch_within(branch: IfBranchView, len: nat) -> bool {
    branch.location.within(len) && branch.condition.spans_within(len) && branch.body.spans_within(
        len,
    )
}

pub open spec fn branches_within(items: Seq<IfBranchView>, len: nat) -> bool {
    forall|i: int| 0 <= i < items.len() ==> branch_within(#[trigger] items[i], len)
}

pub open spec fn branch_view(b: IfBranch) -> IfBranchView
    decreases b,
{
    IfBranchView {
        condition: expr_view(b.condition),
        body: expr_view(b.body),
        location: b.location,
    }
}

pub open spec fn clause_view(c: Clause) -> ClauseView
    decreases c,
{
    ClauseView {
        location: c.location,
        pattern: c.pattern.deep_view(),
        alternative_patterns: c.alternative_patterns.deep_view(),
        guard: match c.guard {
            Some(g) => Some(expr_view(g)),
            None => None,
        },
        then_: expr_view(c.then_),
    }
}

pub open spec fn update_arg_view(a: UntypedRecordUpdateArg) -> RecordUpdateArgView
    decreases a,
{
    RecordUpdateArgView { label: a.label@, location: a.location, value: expr_view(a.value) }
}

pub open spec fn call_arg_view(a: CallArg<UntypedExpr>) -> CallArgView<ExprView>
    decreases a,
{
    CallArgView { label: a.label.deep_view(), location: a.location, value: expr_view(a.value) }
}

pub open spec fn expr_view(e: UntypedExpr) -> ExprView
    decreases e,
{
    match e {
        UntypedExpr::Int { location, value } => ExprView::Int { location, value: value@ },
        UntypedExpr::String { location, value } => ExprView::String { location, value: value@ },
        UntypedExpr::Var { location, name } => ExprView::Var { location, name: name@ },
        UntypedExpr::Sequence { location, expressions } => ExprView::Sequence {
            location,
            expressions: Seq::new(
                expressions@.len(),
                |i: int|
                    if 0 <= i < expressions@.len() {
                        expr_view(expressions@[i])
                    } else {
                        arbitrary()
                    },
            ),
        },
        UntypedExpr::Fn { location, is_capture, arguments, body, return_annotation } => ExprView::Fn {
            location,
            is_capture,
            arguments: arguments.deep_view(),
            body: Box::new(expr_view(*body)),
            return_annotation: return_annotation.deep_view(),
        },
        UntypedExpr::List { location, elements, tail } => ExprView::List {
            location,
            elements: Seq::new(
                elements@.len(),
                |i: int|
                    if 0 <= i < elements@.len() {
                        expr_view(elements@[i])
                    } else {
                        arbitrary()
                    },
            ),
            tail: match tail {
                Some(t) => Some(Box::new(expr_view(*t))),
                None => None,
            },
        },
        UntypedExpr::Call { location, fun, arguments } => ExprView::Call {
            location,
            fun: Box::new(expr_view(*fun)),
            arguments: Seq::new(
                arguments@.len(),
                |i: int|
                    if 0 <= i < arguments@.len() {
                        call_arg_view(arguments@[i])
                    } else {
                        arbitrary()
                    },
            ),
        },
        UntypedExpr::BinOp { location, name, left, right } => ExprView::BinOp {
            location,
            name,
            left: Box::new(expr_view(*left)),
            right: Box::new(expr_view(*right)),
        },
        UntypedExpr::PipeLine { expressions } => ExprView::PipeLine {
            expressions: Box::new(
                NonEmptyView {
                    first: expr_view(expressions.first),
                    rest: Seq::new(
                        expressions.rest@.len(),
                        |i: int|
                            if 0 <= i < expressions.rest@.len() {
                                expr_view(expressions.rest@[i])
                            } else {
                                arbitrary()
                            },
                    ),
                },
            ),
        },
        UntypedExpr::Assignment { location, value, pattern, kind, annotation } => ExprView::Assignment {
            location,
            value: Box::new(expr_view(*value)),
            pattern: pattern.deep_view(),
            kind,
            annotation: annotation.deep_view(),
        },
        UntypedExpr::Try { location, value, pattern, then_, annotation } => ExprView::Try {
            location,
            value: Box::new(expr_view(*value)),
            pattern: pattern.deep_view(),
            then_: Box::new(expr_view(*then_)),
            annotation: annotation.deep_view(),
        },
        UntypedExpr::When { location, subjects, clauses } => ExprView::When {
            location,
            subjects: Seq::new(
                subjects@.len(),
                |i: int|
                    if 0 <= i < subjects@.len() {
                        expr_view(subjects@[i])
                    } else {
                        arbitrary()
                    },
            ),
            clauses: Seq::new(
                clauses@.len(),
                |i: int|
                    if 0 <= i < clauses@.len() {
                        clause_view(clauses@[i])
                    } else {
                        arbitrary()
                    },
            ),
        },
        UntypedExpr::If { location, branches, final_else } => ExprView::If {
            location,
            branches: Box::new(
                NonEmptyView {
                    first: branch_view(branches.first),
                    rest: Seq::new(
                        branches.rest@.len(),
                        |i: int|
                            if 0 <= i < branches.rest@.len() {
                                branch_view(branches.rest@[i])
                            } else {
                                arbitrary()
                            },
                    ),
                },
            ),
            final_else: Box::new(expr_view(*final_else)),
        },
        UntypedExpr::FieldAccess { location, label, container } => ExprView::FieldAccess {
            location,
            label: label@,
            container: Box::new(expr_view(*container)),
        },
        UntypedExpr::RecordUpdate { location, constructor, spread, arguments } => ExprView::RecordUpdate {
            location,
            constructor: Box::new(expr_view(*constructor)),
            spread: RecordUpdateSpreadView {
                base: Box::new(expr_view(*spread.base)),
                location: spread.location,
            },
            arguments: Seq::new(
                arguments@.len(),
                |i: int|
                    if 0 <= i < arguments@.len() {
                        update_arg_view(arguments@[i])
                    } else {
                        arbitrary()
                    },
            ),
        },
        UntypedExpr::Negate { location, value } => ExprView::Negate {
            location,
            value: Box::new(expr_view(*value)),
        },
        UntypedExpr::Todo { kind, location, label } => ExprView::Todo {
            kind,
            location,
            label: label.deep_view(),
        },
    }
}

impl DeepView for UntypedExpr {
    type V = ExprView;

    open spec fn deep_view(&self) -> ExprView {
        expr_view(*self)
    }
}

impl DeepView for IfBranch {
    type V = IfBranchView;

    open spec fn deep_view(&self) -> IfBranchView {
        branch_view(*self)
    }
}

impl DeepView for Clause {
    type V = ClauseView;

    open spec fn deep_view(&self) -> ClauseView {
        clause_view(*self)
    }
}

impl DeepView for UntypedRecordUpdateArg {
    type V = RecordUpdateArgView;

    open spec fn deep_view(&self) -> RecordUpdateArgView {
        update_arg_view(*self)
    }
}

impl ExprView {
    /// Where the value of the expression is written: for a `try`, a
    /// pipeline and a sequence that is where their last expression is.
    pub open spec fn location(self) -> Span
        decreases self,
    {
        match self {
            ExprView::Int { location, .. } => location,
            ExprView::String { location, .. } => location,
            ExprView::Var { location, .. } => location,
            ExprView::Sequence { location, expressions } => if expressions.len() > 0 {
                expressions[expressions.len() - 1].location()
            } else {
                location
            },
            ExprView::Fn { location, .. } => location,
            ExprView::List { location, .. } => location,
            ExprView::Call { location, .. } => location,
            ExprView::BinOp { location, .. } => location,
            ExprView::PipeLine { expressions } => if expressions.rest.len() > 0 {
                expressions.rest[expressions.rest.len() - 1].location()
            } else {
                expressions.first.location()
            },
            ExprView::Assignment { location, .. } => location,
            ExprView::Try { then_, .. } => then_.location(),
            ExprView::When { location, .. } => location,
            ExprView::If { location, .. } => location,
            ExprView::FieldAccess { location, .. } => location,
            ExprView::RecordUpdate { location, .. } => location,
            ExprView::Negate { location, .. } => location,
            ExprView::Todo { location, .. } => location,
        }
    }

    /// Whether every span in the expression is a range of a text of `len`
    /// bytes.
    #[verifier::opaque]
    pub open spec fn spans_within(self, len: nat) -> bool
        decreases self,
    {
        match self {
            ExprView::Int { location, .. } => location.within(len),
            ExprView::String { location, .. } => location.within(len),
            ExprView::Var { location, .. } => location.within(len),
            ExprView::Sequence { location, expressions } => location.within(len) && forall|
                i: int,
            |
                0 <= i < expressions.len() ==> (#[trigger] expressions[i]).spans_within(len),
            ExprView::Fn { location, arguments, body, return_annotation, .. } => {
                &&& location.within(len)
                &&& args_within(arguments, len)
                &&& body.spans_within(len)
                &&& annotation_within(return_annotation, len)
            },
            ExprView::List { location, elements, tail } => {
                &&& location.within(len)
                &&& forall|i: int|
                    0 <= i < elements.len() ==> (#[trigger] elements[i]).spans_within(len)
                &&& match tail {
                    Some(t) => t.spans_within(len),
                    None => true,
                }
            },
            ExprView::Call { location, fun, arguments } => {
                &&& location.within(len)
                &&& fun.spans_within(len)
                &&& forall|i: int|
                    0 <= i < arguments.len() ==> (#[trigger] arguments[i]).location.within(len)
                        && arguments[i].value.spans_within(len)
            },
            ExprView::BinOp { location, left, right, .. } => location.within(len)
                && left.spans_within(len) && right.spans_within(len),
            ExprView::PipeLine { expressions } => expressions.first.spans_within(len) && forall|
                i: int,
            |
                0 <= i < expressions.rest.len() ==> (#[trigger] expressions.rest[i]).spans_within(
                    len,
                ),
            ExprView::Assignment { location, value, pattern, annotation, .. } => {
                &&& location.within(len)
                &&& value.spans_within(len)
                &&& pattern.spans_within(len)
                &&& annotation_within(annotation, len)
            },
            ExprView::Try { location, value, pattern, then_, annotation } => {
                &&& location.within(len)
                &&& value.spans_within(len)
                &&& pattern.spans_within(len)
                &&& then_.spans_within(len)
                &&& annotation_within(annotation, len)
            },
            ExprView::When { location, subjects, clauses } => {
                &&& location.within(len)
                &&& forall|i: int|
                    0 <= i < subjects.len() ==> (#[trigger] subjects[i]).spans_within(len)
                &&& forall|i: int|
                    0 <= i < clauses.len() ==> (#[trigger] clauses[i]).location.within(len)
                        && patterns_within(clauses[i].pattern, len) && (forall|j: int|
                        0 <= j < clauses[i].alternative_patterns.len() ==> patterns_within(
                            #[trigger] clauses[i].alternative_patterns[j],
                            len,
                        )) && clauses[i].then_.spans_within(len) && match clauses[i].guard {
                        Some(g) => g.spans_within(len),
                        None => true,
                    }
            },
            ExprView::If { location, branches, final_else } => {
                &&& location.within(len)
                &&& branches.first.location.within(len)
                &&& branches.first.condition.spans_within(len)
                &&& branches.first.body.spans_within(len)
                &&& forall|i: int|
                    0 <= i < branches.rest.len() ==> (#[trigger] branches.rest[i]).location.within(
                        len,
                    ) && branches.rest[i].condition.spans_within(len)
                        && branches.rest[i].body.spans_within(len)
                &&& final_else.spans_within(len)
            },
            ExprView::FieldAccess { location, container, .. } => location.within(len)
                && container.spans_within(len),
            ExprView::RecordUpdate { location, constructor, spread, arguments } => {
                &&& location.within(len)
                &&& constructor.spans_within(len)
                &&& spread.location.within(len)
                &&& spread.base.spans_within(len)
                &&& forall|i: int|
                    0 <= i < arguments.len() ==> (#[trigger] arguments[i]).location.within(len)
                        && arguments[i].value.spans_within(len)
            },
            ExprView::Negate { location, value } => location.within(len) && value.spans_within(
                len,
            ),
            ExprView::Todo { location, .. } => location.within(len),
        }
    }

    /// Where the expression starts in the source.
    pub open spec fn start(self) -> usize {
        match self {
            ExprView::Sequence { location, .. } => location.start,
            ExprView::Try { location, .. } => location.start,
            _ => self.location().start,
        }
    }

    /// The sequence that evaluates `self` and then_ `next`. A sequence takes
    /// `next` as one more expression; anything else becomes the first of two.
    pub open spec fn append_in_sequence(self, next: ExprView) -> ExprView {
        let location = Span { start: self.start(), end: next.location().end };
        match self {
            ExprView::Sequence { expressions, .. } => ExprView::Sequence {
                location,
                expressions: expressions.push(next),
            },
            _ => ExprView::Sequence { location, expressions: seq![self, next] },
        }
    }

    /// The pipeline that feeds `self` into `next`. A pipeline takes `next`
    /// as one more stage; anything else becomes the first of two stages.
    pub open spec fn pipe_into(self, next: ExprView) -> ExprView {
        match self {
            ExprView::PipeLine { expressions } => ExprView::PipeLine {
                expressions: Box::new(
                    NonEmptyView {
                        first: expressions.first,
                        rest: expressions.rest.push(next),
                    },
                ),
            },
            _ => ExprView::PipeLine {
                expressions: Box::new(NonEmptyView { first: self, rest: seq![next] }),
            },
        }
    }
}

impl UntypedExpr {
    pub fn integer(location: Span, value: String) -> (r: UntypedExpr)
        ensures
            r.deep_view() == (ExprView::Int { location, value: value@ }),
            forall|n: nat| location.within(n) ==> #[trigger] r.deep_view().spans_within(n),
    {
        reveal(ExprView::spans_within);
        UntypedExpr::Int { location, value }
    }

    pub fn string(location: Span, value: String) -> (r: UntypedExpr)
        ensures
            r.deep_view() == (ExprView::String { location, value: value@ }),
            forall|n: nat| location.within(n) ==> #[trigger] r.deep_view().spans_within(n),
    {
        reveal(ExprView::spans_within);
        UntypedExpr::String { location, value }
    }

    pub fn var(location: Span, name: String) -> (r: UntypedExpr)
        ensures
            r.deep_view() == (ExprView::Var { location, name: name@ }),
            forall|n: nat| location.within(n) ==> #[trigger] r.deep_view().spans_within(n),
    {
        reveal(ExprView::spans_within);
        UntypedExpr::Var { location, name }
    }

    pub fn todo(kind: TodoKind, location: Span, label: Option<String>) -> (r: UntypedExpr)
        ensures
            r.deep_view() == (ExprView::Todo { kind, location, label: label.deep_view() }),
            forall|n: nat| location.within(n) ==> #[trigger] r.deep_view().spans_within(n),
    {
        reveal(ExprView::spans_within);
        UntypedExpr::Todo { kind, location, label }
    }

    pub fn sequence(location: Span, expressions: Vec<UntypedExpr>) -> (r: UntypedExpr)
        ensures
            r.deep_view() == (ExprView::Sequence { location, expressions: expressions.deep_view() }),
            forall|n: nat|
                location.within(n) && exprs_within(expressions.deep_view(), n)
                    ==> #[trigger] r.deep_view().spans_within(n),
    {
        reveal(ExprView::spans_within);
        let ghost view = expressions.deep_view();
        let r = UntypedExpr::Sequence { location, expressions };
        assert(r.deep_view()->Sequence_expressions =~= view);
        r
    }

    pub fn function(
        location: Span,
        is_capture: bool,
        arguments: Vec<Arg>,
        body: UntypedExpr,
        return_annotation: Option<Annotation>,
    ) -> (r: UntypedExpr)
        ensures
            r.deep_view() == (ExprView::Fn {
                location,
                is_capture,
                arguments: arguments.deep_view(),
                body: Box::new(body.deep_view()),
                return_annotation: return_annotation.deep_view(),
            }),
            forall|n: nat|
                location.within(n) && args_within(arguments.deep_view(), n)
                    && body.deep_view().spans_within(n) && annotation_within(
                    return_annotation.deep_view(),
                    n,
                ) ==> #[trigger] r.deep_view().spans_within(n),
    {
        reveal(ExprView::spans_within);
        UntypedExpr::Fn { location, is_capture, arguments, body: Box::new(body), return_annotation }
    }

    pub fn list(location: Span, elements: Vec<UntypedExpr>, tail: Option<UntypedExpr>) -> (r:
        UntypedExpr)
        ensures
            r.deep_view() == (ExprView::List {
                location,
                elements: elements.deep_view(),
                tail: match tail {
                    Some(t) => Some(Box::new(t.deep_view())),
                    None => None,
                },
            }),
            forall|n: nat|
                location.within(n) && exprs_within(elements.deep_view(), n) && (match tail {
                    Some(t) => t.deep_view().spans_within(n),
                    None => true,
                }) ==> #[trigger] r.deep_view().spans_within(n),
    {
        reveal(ExprView::spans_within);
        let ghost view = elements.deep_view();
        let r = UntypedExpr::List {
            location,
            elements,
            tail: match tail {
                Some(t) => Some(Box::new(t)),
                None => None,
            },
        };
        assert(r.deep_view()->List_elements =~= view);
        r
    }

    pub fn call(location: Span, fun: UntypedExpr, arguments: Vec<CallArg<UntypedExpr>>) -> (r:
        UntypedExpr)
        ensures
            r.deep_view() == (ExprView::Call {
                location,
                fun: Box::new(fun.deep_view()),
                arguments: arguments.deep_view(),
            }),
            r.deep_view().location() == location,
            forall|n: nat|
                location.within(n) && fun.deep_view().spans_within(n) && call_args_within(
                    arguments.deep_view(),
                    n,
                ) ==> #[trigger] r.deep_view().spans_within(n),
    {
        reveal(ExprView::spans_within);
        let ghost view = arguments.deep_view();
        let ghost items = arguments@;
        let r = UntypedExpr::Call { location, fun: Box::new(fun), arguments };
        assert forall|i: int| 0 <= i < items.len() implies call_arg_view(items[i])
            == #[trigger] view[i] by {}
        assert(r.deep_view()->Call_arguments =~= view);
        r
    }

    pub fn binop(location: Span, name: BinOp, left: UntypedExpr, right: UntypedExpr) -> (r:
        UntypedExpr)
        ensures
            r.deep_view() == (ExprView::BinOp {
                location,
                name,
                left: Box::new(left.deep_view()),
                right: Box::new(right.deep_view()),
            }),
            forall|n: nat|
                location.within(n) && left.deep_view().spans_within(n)
                    && right.deep_view().spans_within(n) ==> #[trigger] r.deep_view().spans_within(
                    n,
                ),
    {
        reveal(ExprView::spans_within);
        UntypedExpr::BinOp { location, name, left: Box::new(left), right: Box::new(right) }
    }

    pub fn pipeline(expressions: NonEmpty<UntypedExpr>) -> (r: UntypedExpr)
        ensures
            r.deep_view() == (ExprView::PipeLine { expressions: Box::new(expressions.deep_view()) }),
            forall|n: nat|
                expressions.deep_view().first.spans_within(n) && exprs_within(
                    expressions.deep_view().rest,
                    n,
                ) ==> #[trigger] r.deep_view().spans_within(n),
    {
        reveal(ExprView::spans_within);
        let ghost view = expressions.deep_view();
        let r = UntypedExpr::PipeLine { expressions: Box::new(expressions) };
        assert(r.deep_view()->PipeLine_expressions.rest =~= view.rest);
        r
    }

    pub fn assignment(
        location: Span,
        value: UntypedExpr,
        pattern: Pattern,
        kind: AssignmentKind,
        annotation: Option<Annotation>,
    ) -> (r: UntypedExpr)
        ensures
            r.deep_view() == (ExprView::Assignment {
                location,
                value: Box::new(value.deep_view()),
                pattern: pattern.deep_view(),
                kind,
                annotation: annotation.deep_view(),
            }),
            forall|n: nat|
                location.within(n) && value.deep_view().spans_within(n)
                    && pattern.deep_view().spans_within(n) && annotation_within(
                    annotation.deep_view(),
                    n,
                ) ==> #[trigger] r.deep_view().spans_within(n),
    {
        reveal(ExprView::spans_within);
        UntypedExpr::Assignment { location, value: Box::new(value), pattern, kind, annotation }
    }

    pub fn try_then(
        location: Span,
        value: UntypedExpr,
        pattern: Pattern,
        then_: UntypedExpr,
        annotation: Option<Annotation>,
    ) -> (r: UntypedExpr)
        ensures
            r.deep_view() == (ExprView::Try {
                location,
                value: Box::new(value.deep_view()),
                pattern: pattern.deep_view(),
                then_: Box::new(then_.deep_view()),
                annotation: annotation.deep_view(),
            }),
            r.deep_view().location() == then_.deep_view().location(),
            r.deep_view().start() == location.start,
            forall|n: nat|
                location.within(n) && value.deep_view().spans_within(n)
                    && pattern.deep_view().spans_within(n) && then_.deep_view().spans_within(n)
                    && annotation_within(annotation.deep_view(), n)
                    ==> #[trigger] r.deep_view().spans_within(n),
    {
        reveal(ExprView::spans_within);
        UntypedExpr::Try {
            location,
            value: Box::new(value),
            pattern,
            then_: Box::new(then_),
            annotation,
        }
    }

    pub fn when(location: Span, subjects: Vec<UntypedExpr>, clauses: Vec<Clause>) -> (r:
        UntypedExpr)
        ensures
            r.deep_view() == (ExprView::When {
                location,
                subjects: subjects.deep_view(),
                clauses: clauses.deep_view(),
            }),
            forall|n: nat|
                location.within(n) && exprs_within(subjects.deep_view(), n) && clauses_within(
                    clauses.deep_view(),
                    n,
                ) ==> #[trigger] r.deep_view().spans_within(n),
    {
        reveal(ExprView::spans_within);
        let ghost subjects_view = subjects.deep_view();
        let ghost clauses_view = clauses.deep_view();
        let r = UntypedExpr::When { location, subjects, clauses };
        assert(r.deep_view()->When_subjects =~= subjects_view);
        assert(r.deep_view()->When_clauses =~= clauses_view);
        assert forall|n: nat|
            location.within(n) && exprs_within(subjects_view, n) && clauses_within(
                clauses_view,
                n,
            ) implies #[trigger] r.deep_view().spans_within(n) by {
            assert forall|i: int| 0 <= i < clauses_view.len() implies (
            #[trigger] clauses_view[i]).location.within(n) && patterns_within(
                clauses_view[i].pattern,
                n,
            ) && (forall|j: int|
                0 <= j < clauses_view[i].alternative_patterns.len() ==> patterns_within(
                    #[trigger] clauses_view[i].alternative_patterns[j],
                    n,
                )) && clauses_view[i].then_.spans_within(n) && match clauses_view[i].guard {
                Some(g) => g.spans_within(n),
                None => true,
            } by {
                assert(clause_within(clauses_view[i], n));
            }
        }
        r
    }

    pub fn if_else(location: Span, branches: NonEmpty<IfBranch>, final_else: UntypedExpr) -> (r:
        UntypedExpr)
        ensures
            r.deep_view() == (ExprView::If {
                location,
                branches: Box::new(branches.deep_view()),
                final_else: Box::new(final_else.deep_view()),
            }),
            forall|n: nat|
                location.within(n) && branch_within(branches.deep_view().first, n)
                    && branches_within(branches.deep_view().rest, n)
                    && final_else.deep_view().spans_within(n)
                    ==> #[trigger] r.deep_view().spans_within(n),
    {
        reveal(ExprView::spans_within);
        let ghost view = branches.deep_view();
        let r = UntypedExpr::If {
            location,
            branches: Box::new(branches),
            final_else: Box::new(final_else),
        };
        assert(r.deep_view()->If_branches.rest =~= view.rest);
        assert forall|n: nat|
            location.within(n) && branch_within(view.first, n) && branches_within(view.rest, n)
                && final_else.deep_view().spans_within(n) implies #[trigger] r.deep_view().spans_within(
            n,
        ) by {
            assert forall|i: int| 0 <= i < view.rest.len() implies (
            #[trigger] view.rest[i]).location.within(n) && view.rest[i].condition.spans_within(n)
                && view.rest[i].body.spans_within(n) by {
                assert(branch_within(view.rest[i], n));
            }
        }
        r
    }

    pub fn field_access(location: Span, label: String, container: UntypedExpr) -> (r: UntypedExpr)
        ensures
            r.deep_view() == (ExprView::FieldAccess {
                location,
                label: label@,
                container: Box::new(container.deep_view()),
            }),
            forall|n: nat|
                location.within(n) && container.deep_view().spans_within(n)
                    ==> #[trigger] r.deep_view().spans_within(n),
    {
        reveal(ExprView::spans_within);
        UntypedExpr::FieldAccess { location, label, container: Box::new(container) }
    }

    pub fn record_update(
        location: Span,
        constructor: UntypedExpr,
        spread: RecordUpdateSpread,
        arguments: Vec<UntypedRecordUpdateArg>,
    ) -> (r: UntypedExpr)
        ensures
            r.deep_view() == (ExprView::RecordUpdate {
                location,
                constructor: Box::new(constructor.deep_view()),
                spread: RecordUpdateSpreadView {
                    base: Box::new(spread.base.deep_view()),
                    location: spread.location,
                },
                arguments: arguments.deep_view(),
            }),
            forall|n: nat|
                location.within(n) && constructor.deep_view().spans_within(n)
                    && spread.location.within(n) && spread.base.deep_view().spans_within(n)
                    && update_args_within(arguments.deep_view(), n)
                    ==> #[trigger] r.deep_view().spans_within(n),
    {
        reveal(ExprView::spans_within);
        let ghost view = arguments.deep_view();
        let r = UntypedExpr::RecordUpdate {
            location,
            constructor: Box::new(constructor),
            spread,
            arguments,
        };
        assert(r.deep_view()->RecordUpdate_arguments =~= view);
        r
    }

    pub fn negate(location: Span, value: UntypedExpr) -> (r: UntypedExpr)
        ensures
            r.deep_view() == (ExprView::Negate { location, value: Box::new(value.deep_view()) }),
            forall|n: nat|
                location.within(n) && value.deep_view().spans_within(n)
                    ==> #[trigger] r.deep_view().spans_within(n),
    {
        reveal(ExprView::spans_within);
        UntypedExpr::Negate { location, value: Box::new(value) }
    }

    pub fn location(&self) -> (r: Span)
        ensures
            r == self.deep_view().location(),
        decreases self,
    {
        match self {
            UntypedExpr::Int { location, .. } => *location,
            UntypedExpr::String { location, .. } => *location,
            UntypedExpr::Var { location, .. } => *location,
            UntypedExpr::Sequence { location, expressions } => {
                let n = expressions.len();
                if n > 0 {
                    expressions[n - 1].location()
                } else {
                    *location
                }
            },
            UntypedExpr::Fn { location, .. } => *location,
            UntypedExpr::List { location, .. } => *location,
            UntypedExpr::Call { location, .. } => *location,
            UntypedExpr::BinOp { location, .. } => *location,
            UntypedExpr::PipeLine { expressions } => {
                let n = expressions.rest.len();
                if n > 0 {
                    expressions.rest[n - 1].location()
                } else {
                    expressions.first.location()
                }
            },
            UntypedExpr::Assignment { location, .. } => *location,
            UntypedExpr::Try { then_, .. } => then_.location(),
            UntypedExpr::When { location, .. } => *location,
            UntypedExpr::If { location, .. } => *location,
            UntypedExpr::FieldAccess { location, .. } => *location,
            UntypedExpr::RecordUpdate { location, .. } => *location,
            UntypedExpr::Negate { location, .. } => *location,
            UntypedExpr::Todo { location, .. } => *location,
        }
    }

    /// Where the expression starts in the source.
    pub fn start(&self) -> (r: usize)
        ensures
            r == self.deep_view().start(),
    {
        match self {
            UntypedExpr::Sequence { location, .. } => location.start,
            UntypedExpr::Try { location, .. } => location.start,
            _ => self.location().start,
        }
    }

    pub fn append_in_sequence(self, next: UntypedExpr) -> (r: UntypedExpr)
        ensures
            r.deep_view() == self.deep_view().append_in_sequence(next.deep_view()),
            r.deep_view().location() == next.deep_view().location(),
            r.deep_view().start() == self.deep_view().start(),
            forall|n: nat|
                self.deep_view().spans_within(n) && next.deep_view().spans_within(n) && (Span {
                    start: self.deep_view().start(),
                    end: next.deep_view().location().end,
                }).within(n) ==> #[trigger] r.deep_view().spans_within(n),
    {
        reveal(ExprView::spans_within);
        let location = Span { start: self.start(), end: next.location().end };
        match self {
            UntypedExpr::Sequence { location: _, expressions } => {
                let mut expressions = expressions;
                let ghost before = expressions.deep_view();
                assert(before =~= self.deep_view()->Sequence_expressions);
                expressions.push(next);
                assert(expressions.deep_view() =~= before.push(next.deep_view()));
                UntypedExpr::sequence(location, expressions)
            },
            _ => {
                let ghost first = self.deep_view();
                let mut expressions: Vec<UntypedExpr> = Vec::new();
                expressions.push(self);
                expressions.push(next);
                assert(expressions.deep_view() =~= seq![first, next.deep_view()]);
                UntypedExpr::sequence(location, expressions)
            },
        }
    }

    /// The pipeline that feeds `self` into `next`.
    pub fn pipe_into(self, next: UntypedExpr) -> (r: UntypedExpr)
        ensures
            r.deep_view() == self.deep_view().pipe_into(next.deep_view()),
            r.deep_view().location() == next.deep_view().location(),
            r.deep_view().start() == next.deep_view().location().start,
            forall|n: nat|
                self.deep_view().spans_within(n) && next.deep_view().spans_within(n)
                    ==> #[trigger] r.deep_view().spans_within(n),
    {
        reveal(ExprView::spans_within);
        match self {
            UntypedExpr::PipeLine { expressions } => {
                let mut stages = *expressions;
                let ghost before = stages.deep_view();
                assert(before.rest =~= self.deep_view()->PipeLine_expressions.rest);
                stages.rest.push(next);
                assert(stages.deep_view().rest =~= before.rest.push(next.deep_view()));
                UntypedExpr::pipeline(stages)
            },
            _ => {
                let ghost first = self.deep_view();
                let mut stages = NonEmpty::new(self);
                stages.rest.push(next);
                assert(stages.deep_view().rest =~= seq![next.deep_view()]);
                UntypedExpr::pipeline(stages)
            },
        }
    }
}

// ---------------------------------------------------------------- definitions
/// A named function of a module.
#[derive(Debug, PartialEq, Eq)]
pub struct Function {
    pub arguments: Vec<Arg>,
    pub body: UntypedExpr,
    pub doc: Option<String>,
    pub location: Span,
    pub name: String,
    pub public: bool,
    pub return_annotation: Option<Annotation>,
    pub return_type: (),
    pub end_position: usize,
}

pub struct FunctionView {
    pub arguments: Seq<ArgView>,
    pub body: ExprView,
    pub doc: Option<Seq<char>>,
    pub location: Span,
    pub name: Seq<char>,
    pub public: bool,
    pub return_annotation: Option<AnnotationView>,
    pub end_position: usize,
}

impl DeepView for Function {
    type V = FunctionView;

    open spec fn deep_view(&self) -> FunctionView {
        FunctionView {
            arguments: self.arguments.deep_view(),
            body: self.body.deep_view(),
            doc: self.doc.deep_view(),
            location: self.location,
            name: self.name@,
            public: self.public,
            return_annotation: self.return_annotation.deep_view(),
            end_position: self.end_position,
        }
    }
}

#[derive(Debug, PartialEq, Eq)]
pub enum UntypedDefinition {
    Fn(Function),
    TypeAlias(TypeAlias),
    DataType(DataType),
    Use(Use),
}

pub enum DefinitionView {
    Fn(FunctionView),
    TypeAlias(TypeAliasView),
    DataType(DataTypeView),
    Use(UseView),
}

impl DeepView for UntypedDefinition {
    type V = DefinitionView;

    open spec fn deep_view(&self) -> DefinitionView {
        match self {
            UntypedDefinition::Fn(f) => DefinitionView::Fn(f.deep_view()),
            UntypedDefinition::TypeAlias(a) => DefinitionView::TypeAlias(a.deep_view()),
            UntypedDefinition::DataType(d) => DefinitionView::DataType(d.deep_view()),
            UntypedDefinition::Use(u) => DefinitionView::Use(u.deep_view()),
        }
    }
}

/// A module as the parser leaves it: its definitions, without a name and
/// without documentation.
#[derive(Debug, PartialEq, Eq)]
pub struct UntypedModule {
    pub name: String,
    pub docs: Vec<String>,
    pub type_info: (),
    pub definitions: Vec<UntypedDefinition>,
    pub kind: ModuleKind,
}

pub struct ModuleView {
    pub name: Seq<char>,
    pub docs: Seq<Seq<char>>,
    pub definitions: Seq<DefinitionView>,
    pub kind: ModuleKind,
}

impl DeepView for UntypedModule {
    type V = ModuleView;

    open spec fn deep_view(&self) -> ModuleView {
        ModuleView {
            name: self.name@,
            docs: self.docs.deep_view(),
            definitions: self.definitions.deep_view(),
            kind: self.kind,
        }
    }
}

impl FunctionView {
    /// Whether every span in the function is a range of a text of `len`
    /// bytes, and the function ends inside the text.
    pub open spec fn spans_within(self, len: nat) -> bool {
        &&& self.location.within(len)
        &&& self.end_position < len
        &&& forall|i: int|
            0 <= i < self.arguments.len() ==> (#[trigger] self.arguments[i]).spans_within(len)
        &&& self.body.spans_within(len)
        &&& match self.return_annotation {
            Some(a) => a.spans_within(len),
            None => true,
        }
    }
}

impl DefinitionView {
    /// Whether every span in the definition is a range of a text of `len`
    /// bytes.
    pub open spec fn spans_within(self, len: nat) -> bool {
        match self {
            DefinitionView::Fn(f) => f.spans_within(len),
            DefinitionView::TypeAlias(a) => a.spans_within(len),
            DefinitionView::DataType(d) => d.spans_within(len),
            DefinitionView::Use(u) => u.spans_within(len),
        }
    }
}

} // verus!
