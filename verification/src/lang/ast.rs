//! Source positions and the untyped syntax tree of definitions, type
//! annotations and patterns.
use vstd::prelude::*;

verus! {

/// A half-open byte range `[start, end)` of the source text.
#[derive(Clone, Copy, Debug, PartialEq, Eq, Structural)]
pub struct Span {
    pub start: usize,
    pub end: usize,
}

impl DeepView for Span {
    type V = Span;

    open spec fn deep_view(&self) -> Span {
        *self
    }
}

/// The smallest span that covers both `a` and `b`.
pub open spec fn span_union(a: Span, b: Span) -> Span {
    Span {
        start: if a.start <= b.start { a.start } else { b.start },
        end: if a.end >= b.end { a.end } else { b.end },
    }
}

impl Span {
    pub fn new(start: usize, end: usize) -> (r: Span)
        ensures
            r == (Span { start, end }),
    {
        Span { start, end }
    }

    /// The empty span at the start of the source, carried by synthesized nodes.
    pub fn empty() -> (r: Span)
        ensures
            r == (Span { start: 0, end: 0 }),
    {
        Span { start: 0, end: 0 }
    }

    pub fn union(self, other: Span) -> (r: Span)
        ensures
            r == span_union(self, other),
    {
        Span {
            start: if self.start <= other.start { self.start } else { other.start },
            end: if self.end >= other.end { self.end } else { other.end },
        }
    }

    /// Whether the span is a range of a text of `len` bytes.
    pub open spec fn within(self, len: nat) -> bool {
        self.start <= self.end <= len
    }
}

#[derive(Clone, Copy, Debug, PartialEq, Eq, Structural)]
#[allow(inconsistent_fields)]
pub enum ModuleKind {
    Lib,
    Script,
}

impl DeepView for ModuleKind {
    type V = ModuleKind;

    open spec fn deep_view(&self) -> ModuleKind {
        *self
    }
}

/// A list that holds at least one item.
#[derive(Debug, PartialEq, Eq)]
pub struct NonEmpty<T> {
    pub first: T,
    pub rest: Vec<T>,
}

pub struct NonEmptyView<V> {
    pub first: V,
    pub rest: Seq<V>,
}

impl<V> NonEmptyView<V> {
    pub open spec fn last(self) -> V {
        if self.rest.len() > 0 {
            self.rest.last()
        } else {
            self.first
        }
    }
}

impl<T: DeepView> DeepView for NonEmpty<T> {
    type V = NonEmptyView<T::V>;

    open spec fn deep_view(&self) -> NonEmptyView<T::V> {
        NonEmptyView { first: self.first.deep_view(), rest: self.rest.deep_view() }
    }
}

impl<T> NonEmpty<T> {
    pub fn new(first: T) -> (r: NonEmpty<T>)
        ensures
            r.first == first,
            r.rest@.len() == 0,
    {
        NonEmpty { first, rest: Vec::new() }
    }

    pub fn push(&mut self, item: T)
        ensures
            final(self).first == old(self).first,
            final(self).rest@ == old(self).rest@.push(item),
    {
        self.rest.push(item);
    }

    pub fn len(&self) -> (n: usize)
        requires
            self.rest@.len() < usize::MAX,
        ensures
            n == self.rest@.len() + 1,
    {
        self.rest.len() + 1
    }

    pub fn last(&self) -> (r: &T)
        ensures
            *r == if self.rest@.len() > 0 {
                self.rest@.last()
            } else {
                self.first
            },
    {
        let n = self.rest.len();
        if n > 0 {
            &self.rest[n - 1]
        } else {
            &self.first
        }
    }
}

// ---------------------------------------------------------------- annotations
/// A type as written in the source.
#[derive(Debug, PartialEq, Eq)]
#[allow(inconsistent_fields)]
pub enum Annotation {
    Constructor { location: Span, module: Option<String>, name: String, arguments: Vec<Annotation> },
    Fn { location: Span, arguments: Vec<Annotation>, ret: Box<Annotation> },
    Var { location: Span, name: String },
    Hole { location: Span, name: String },
}

#[allow(inconsistent_fields)]
pub enum AnnotationView {
    Constructor {
        location: Span,
        module: Option<Seq<char>>,
        name: Seq<char>,
        arguments: Seq<AnnotationView>,
    },
    Fn { location: Span, arguments: Seq<AnnotationView>, ret: Box<AnnotationView> },
    Var { location: Span, name: Seq<char> },
    Hole { location: Span, name: Seq<char> },
}

pub open spec fn annotation_view(a: Annotation) -> AnnotationView
    decreases a,
{
    match a {
        Annotation::Constructor { location, module, name, arguments } => AnnotationView::Constructor {
            location,
            module: module.deep_view(),
            name: name@,
            arguments: Seq::new(
                arguments@.len(),
                |i: int|
                    if 0 <= i < arguments@.len() {
                        annotation_view(arguments@[i])
                    } else {
                        arbitrary()
                    },
            ),
        },
        Annotation::Fn { location, arguments, ret } => AnnotationView::Fn {
            location,
            arguments: Seq::new(
                arguments@.len(),
                |i: int|
                    if 0 <= i < arguments@.len() {
                        annotation_view(arguments@[i])
                    } else {
                        arbitrary()
                    },
            ),
            ret: Box::new(annotation_view(*ret)),
        },
        Annotation::Var { location, name } => AnnotationView::Var { location, name: name@ },
        Annotation::Hole { location, name } => AnnotationView::Hole { location, name: name@ },
    }
}

impl DeepView for Annotation {
    type V = AnnotationView;

    open spec fn deep_view(&self) -> AnnotationView {
        annotation_view(*self)
    }
}

impl AnnotationView {
    pub open spec fn location(self) -> Span {
        match self {
            AnnotationView::Constructor { location, .. } => location,
            AnnotationView::Fn { location, .. } => location,
            AnnotationView::Var { location, .. } => location,
            AnnotationView::Hole { location, .. } => location,
        }
    }

    /// Whether every span in the annotation is a range of a text of `len` bytes.
    pub open spec fn spans_within(self, len: nat) -> bool
        decreases self,
    {
        match self {
            AnnotationView::Constructor { location, arguments, .. } => location.within(len)
                && forall|i: int|
                    0 <= i < arguments.len() ==> (#[trigger] arguments[i]).spans_within(len),
            AnnotationView::Fn { location, arguments, ret } => location.within(len)
                && ret.spans_within(len) && forall|i: int|
                0 <= i < arguments.len() ==> (#[trigger] arguments[i]).spans_within(len),
            AnnotationView::Var { location, .. } => location.within(len),
            AnnotationView::Hole { location, .. } => location.within(len),
        }
    }
}

impl Annotation {
    pub fn constructor(
        location: Span,
        module: Option<String>,
        name: String,
        arguments: Vec<Annotation>,
    ) -> (r: Annotation)
        ensures
            r.deep_view() == (AnnotationView::Constructor {
                location,
                module: module.deep_view(),
                name: name@,
                arguments: arguments.deep_view(),
            }),
    {
        let ghost view = arguments.deep_view();
        let r = Annotation::Constructor { location, module, name, arguments };
        assert(r.deep_view()->Constructor_arguments =~= view);
        r
    }

    pub fn function(location: Span, arguments: Vec<Annotation>, ret: Annotation) -> (r: Annotation)
        ensures
            r.deep_view() == (AnnotationView::Fn {
                location,
                arguments: arguments.deep_view(),
                ret: Box::new(ret.deep_view()),
            }),
    {
        let ghost view = arguments.deep_view();
        let r = Annotation::Fn { location, arguments, ret: Box::new(ret) };
        assert(r.deep_view()->Fn_arguments =~= view);
        r
    }

    pub fn location(&self) -> (r: Span)
        ensures
            r == self.deep_view().location(),
    {
        match self {
            Annotation::Constructor { location, .. } => *location,
            Annotation::Fn { location, .. } => *location,
            Annotation::Var { location, .. } => *location,
            Annotation::Hole { location, .. } => *location,
        }
    }
}

// ------------------------------------------------------------------ arguments
/// How a parameter of a function is named.
#[derive(Debug, PartialEq, Eq)]
#[allow(inconsistent_fields)]
pub enum ArgName {
    Discard { name: String, location: Span },
    LabeledDiscard { label: String, name: String, location: Span },
    Named { name: String, location: Span },
    NamedLabeled { name: String, label: String, location: Span },
}

#[allow(inconsistent_fields)]
pub enum ArgNameView {
    Discard { name: Seq<char>, location: Span },
    LabeledDiscard { label: Seq<char>, name: Seq<char>, location: Span },
    Named { name: Seq<char>, location: Span },
    NamedLabeled { name: Seq<char>, label: Seq<char>, location: Span },
}

impl DeepView for ArgName {
    type V = ArgNameView;

    open spec fn deep_view(&self) -> ArgNameView {
        match self {
            ArgName::Discard { name, location } => ArgNameView::Discard {
                name: name@,
                location: *location,
            },
            ArgName::LabeledDiscard { label, name, location } => ArgNameView::LabeledDiscard {
                label: label@,
                name: name@,
                location: *location,
            },
            ArgName::Named { name, location } => ArgNameView::Named {
                name: name@,
                location: *location,
            },
            ArgName::NamedLabeled { name, label, location } => ArgNameView::NamedLabeled {
                name: name@,
                label: label@,
                location: *location,
            },
        }
    }
}

impl ArgNameView {
    pub open spec fn location(self) -> Span {
        match self {
            ArgNameView::Discard { location, .. } => location,
            ArgNameView::LabeledDiscard { location, .. } => location,
            ArgNameView::Named { location, .. } => location,
            ArgNameView::NamedLabeled { location, .. } => location,
        }
    }
}

/// A parameter of a function, with the type that the source gives it.
#[derive(Debug, PartialEq, Eq)]
pub struct Arg {
    pub arg_name: ArgName,
    pub location: Span,
    pub annotation: Option<Annotation>,
    pub tipo: (),
}

pub type UntypedArg = Arg;

pub struct ArgView {
    pub arg_name: ArgNameView,
    pub location: Span,
    pub annotation: Option<AnnotationView>,
}

impl ArgView {
    /// Whether every span in the parameter is a range of a text of `len`
    /// bytes.
    pub open spec fn spans_within(self, len: nat) -> bool {
        &&& self.location.within(len)
        &&& self.arg_name.location().within(len)
        &&& match self.annotation {
            Some(a) => a.spans_within(len),
            None => true,
        }
    }
}

impl DeepView for Arg {
    type V = ArgView;

    open spec fn deep_view(&self) -> ArgView {
        ArgView {
            arg_name: self.arg_name.deep_view(),
            location: self.location,
            annotation: self.annotation.deep_view(),
        }
    }
}

// ------------------------------------------------------------------- patterns
/// An argument of a call or of a constructor pattern, with its optional label.
#[derive(Debug, PartialEq, Eq)]
pub struct CallArg<A> {
    pub label: Option<String>,
    pub location: Span,
    pub value: A,
}

pub struct CallArgView<V> {
    pub label: Option<Seq<char>>,
    pub location: Span,
    pub value: V,
}

impl<A: DeepView> DeepView for CallArg<A> {
    type V = CallArgView<A::V>;

    open spec fn deep_view(&self) -> CallArgView<A::V> {
        CallArgView {
            label: self.label.deep_view(),
            location: self.location,
            value: self.value.deep_view(),
        }
    }
}

#[derive(Debug, PartialEq, Eq)]
#[allow(inconsistent_fields)]
pub enum Pattern {
    Int { location: Span, value: String },
    String { location: Span, value: String },
    Var { location: Span, name: String },
    Assign { name: String, location: Span, pattern: Box<Pattern> },
    Discard { name: String, location: Span },
    List { location: Span, elements: Vec<Pattern>, tail: Option<Box<Pattern>> },
    Constructor {
        is_record: bool,
        location: Span,
        name: String,
        arguments: Vec<CallArg<Pattern>>,
        module: Option<String>,
        constructor: (),
        with_spread: bool,
        tipo: (),
    },
}

pub type UntypedPattern = Pattern;

#[allow(inconsistent_fields)]
pub enum PatternView {
    Int { location: Span, value: Seq<char> },
    String { location: Span, value: Seq<char> },
    Var { location: Span, name: Seq<char> },
    Assign { name: Seq<char>, location: Span, pattern: Box<PatternView> },
    Discard { name: Seq<char>, location: Span },
    List { location: Span, elements: Seq<PatternView>, tail: Option<Box<PatternView>> },
    Constructor {
        is_record: bool,
        location: Span,
        name: Seq<char>,
        arguments: Seq<CallArgView<PatternView>>,
        module: Option<Seq<char>>,
        with_spread: bool,
    },
}

pub open spec fn pattern_view(p: Pattern) -> PatternView
    decreases p,
{
    match p {
        Pattern::Int { location, value } => PatternView::Int { location, value: value@ },
        Pattern::String { location, value } => PatternView::String { location, value: value@ },
        Pattern::Var { location, name } => PatternView::Var { location, name: name@ },
        Pattern::Assign { name, location, pattern } => PatternView::Assign {
            name: name@,
            location,
            pattern: Box::new(pattern_view(*pattern)),
        },
        Pattern::Discard { name, location } => PatternView::Discard { name: name@, location },
        Pattern::List { location, elements, tail } => PatternView::List {
            location,
            elements: Seq::new(
                elements@.len(),
                |i: int|
                    if 0 <= i < elements@.len() {
                        pattern_view(elements@[i])
                    } else {
                        arbitrary()
                    },
            ),
            tail: match tail {
                Some(t) => Some(Box::new(pattern_view(*t))),
                None => None,
            },
        },
        Pattern::Constructor {
            is_record,
            location,
            name,
            arguments,
            module,
            constructor,
            with_spread,
            tipo,
        } => PatternView::Constructor {
            is_record,
            location,
            name: name@,
            arguments: Seq::new(
                arguments@.len(),
                |i: int|
                    CallArgView {
                        label: arguments@[i].label.deep_view(),
                        location: arguments@[i].location,
                        value: if 0 <= i < arguments@.len() {
                            pattern_view(arguments@[i].value)
                        } else {
                            arbitrary()
                        },
                    },
            ),
            module: module.deep_view(),
            with_spread,
        },
    }
}

impl DeepView for Pattern {
    type V = PatternView;

    open spec fn deep_view(&self) -> PatternView {
        pattern_view(*self)
    }
}

impl PatternView {
    pub open spec fn location(self) -> Span {
        match self {
            PatternView::Int { location, .. } => location,
            PatternView::String { location, .. } => location,
            PatternView::Var { location, .. } => location,
            PatternView::Assign { location, .. } => location,
            PatternView::Discard { location, .. } => location,
            PatternView::List { location, .. } => location,
            PatternView::Constructor { location, .. } => location,
        }
    }

    /// Whether every span in the pattern is a range of a text of `len` bytes.
    pub open spec fn spans_within(self, len: nat) -> bool
        decreases self,
    {
        match self {
            PatternView::Int { location, .. } => location.within(len),
            PatternView::String { location, .. } => location.within(len),
            PatternView::Var { location, .. } => location.within(len),
            PatternView::Assign { location, pattern, .. } => location.within(len)
                && pattern.spans_within(len),
            PatternView::Discard { location, .. } => location.within(len),
            PatternView::List { location, elements, tail } => location.within(len) && (forall|
                i: int,
            |
                0 <= i < elements.len() ==> (#[trigger] elements[i]).spans_within(len)) && match tail {
                Some(t) => t.spans_within(len),
                None => true,
            },
            PatternView::Constructor { location, arguments, .. } => location.within(len)
                && forall|i: int|
                    0 <= i < arguments.len() ==> (#[trigger] arguments[i]).location.within(len)
                        && arguments[i].value.spans_within(len),
        }
    }
}

impl Pattern {
    pub fn list(location: Span, elements: Vec<Pattern>, tail: Option<Pattern>) -> (r: Pattern)
        ensures
            r.deep_view() == (PatternView::List {
                location,
                elements: elements.deep_view(),
                tail: match tail {
                    Some(t) => Some(Box::new(t.deep_view())),
                    None => None,
                },
            }),
    {
        let ghost view = elements.deep_view();
        let r = Pattern::List {
            location,
            elements,
            tail: match tail {
                Some(t) => Some(Box::new(t)),
                None => None,
            },
        };
        assert(r.deep_view()->List_elements =~= view);
        r
    }

    pub fn constructor(
        is_record: bool,
        location: Span,
        name: String,
        arguments: Vec<CallArg<Pattern>>,
        module: Option<String>,
        with_spread: bool,
    ) -> (r: Pattern)
        ensures
            r.deep_view() == (PatternView::Constructor {
                is_record,
                location,
                name: name@,
                arguments: arguments.deep_view(),
                module: module.deep_view(),
                with_spread,
            }),
    {
        let ghost view = arguments.deep_view();
        let r = Pattern::Constructor {
            is_record,
            location,
            name,
            arguments,
            module,
            constructor: (),
            with_spread,
            tipo: (),
        };
        assert(r.deep_view()->Constructor_arguments =~= view);
        r
    }

    pub fn location(&self) -> (r: Span)
        ensures
            r == self.deep_view().location(),
    {
        match self {
            Pattern::Int { location, .. } => *location,
            Pattern::String { location, .. } => *location,
            Pattern::Var { location, .. } => *location,
            Pattern::Assign { location, .. } => *location,
            Pattern::Discard { location, .. } => *location,
            Pattern::List { location, .. } => *location,
            Pattern::Constructor { location, .. } => *location,
        }
    }
}

// ---------------------------------------------------------------- definitions
/// One name that a `use` brings in from a module, with its optional alias.
#[derive(Debug, PartialEq, Eq)]
pub struct UnqualifiedImport {
    pub location: Span,
    pub name: String,
    pub as_name: Option<String>,
}

pub struct UnqualifiedImportView {
    pub location: Span,
    pub name: Seq<char>,
    pub as_name: Option<Seq<char>>,
}

impl DeepView for UnqualifiedImport {
    type V = UnqualifiedImportView;

    open spec fn deep_view(&self) -> UnqualifiedImportView {
        UnqualifiedImportView {
            location: self.location,
            name: self.name@,
            as_name: self.as_name.deep_view(),
        }
    }
}

#[derive(Debug, PartialEq, Eq)]
pub struct Use {
    pub as_name: Option<String>,
    pub location: Span,
    pub module: Vec<String>,
    pub package: (),
    pub unqualified: Vec<UnqualifiedImport>,
}

pub struct UseView {
    pub as_name: Option<Seq<char>>,
    pub location: Span,
    pub module: Seq<Seq<char>>,
    pub unqualified: Seq<UnqualifiedImportView>,
}

impl DeepView for Use {
    type V = UseView;

    open spec fn deep_view(&self) -> UseView {
        UseView {
            as_name: self.as_name.deep_view(),
            location: self.location,
            module: self.module.deep_view(),
            unqualified: self.unqualified.deep_view(),
        }
    }
}

#[derive(Debug, PartialEq, Eq)]
pub struct TypeAlias {
    pub alias: String,
    pub annotation: Annotation,
    pub doc: Option<String>,
    pub location: Span,
    pub parameters: Vec<String>,
    pub public: bool,
    pub tipo: (),
}

pub struct TypeAliasView {
    pub alias: Seq<char>,
    pub annotation: AnnotationView,
    pub doc: Option<Seq<char>>,
    pub location: Span,
    pub parameters: Seq<Seq<char>>,
    pub public: bool,
}

impl DeepView for TypeAlias {
    type V = TypeAliasView;

    open spec fn deep_view(&self) -> TypeAliasView {
        TypeAliasView {
            alias: self.alias@,
            annotation: self.annotation.deep_view(),
            doc: self.doc.deep_view(),
            location: self.location,
            parameters: self.parameters.deep_view(),
            public: self.public,
        }
    }
}

/// A field of a constructor, with its label where it has one.
#[derive(Debug, PartialEq, Eq)]
pub struct RecordConstructorArg {
    pub label: Option<String>,
    pub annotation: Annotation,
    pub location: Span,
    pub tipo: (),
    pub doc: Option<String>,
}

pub struct RecordConstructorArgView {
    pub label: Option<Seq<char>>,
    pub annotation: AnnotationView,
    pub location: Span,
    pub doc: Option<Seq<char>>,
}

impl DeepView for RecordConstructorArg {
    type V = RecordConstructorArgView;

    open spec fn deep_view(&self) -> RecordConstructorArgView {
        RecordConstructorArgView {
            label: self.label.deep_view(),
            annotation: self.annotation.deep_view(),
            location: self.location,
            doc: self.doc.deep_view(),
        }
    }
}

/// A constructor of a data type. Where `sugar` holds, the source gave the
/// fields alone and the constructor bears the name of its type.
#[derive(Debug, PartialEq, Eq)]
pub struct RecordConstructor {
    pub location: Span,
    pub name: String,
    pub arguments: Vec<RecordConstructorArg>,
    pub documentation: Option<String>,
    pub sugar: bool,
}

pub struct RecordConstructorView {
    pub location: Span,
    pub name: Seq<char>,
    pub arguments: Seq<RecordConstructorArgView>,
    pub documentation: Option<Seq<char>>,
    pub sugar: bool,
}

impl DeepView for RecordConstructor {
    type V = RecordConstructorView;

    open spec fn deep_view(&self) -> RecordConstructorView {
        RecordConstructorView {
            location: self.location,
            name: self.name@,
            arguments: self.arguments.deep_view(),
            documentation: self.documentation.deep_view(),
            sugar: self.sugar,
        }
    }
}

#[derive(Debug, PartialEq, Eq)]
pub struct DataType {
    pub constructors: Vec<RecordConstructor>,
    pub doc: Option<String>,
    pub location: Span,
    pub name: String,
    pub opaque: bool,
    pub parameters: Vec<String>,
    pub public: bool,
    pub typed_parameters: Vec<()>,
}

pub struct DataTypeView {
    pub constructors: Seq<RecordConstructorView>,
    pub doc: Option<Seq<char>>,
    pub location: Span,
    pub name: Seq<char>,
    pub opaque: bool,
    pub parameters: Seq<Seq<char>>,
    pub public: bool,
    pub typed_parameters: nat,
}

impl DeepView for DataType {
    type V = DataTypeView;

    open spec fn deep_view(&self) -> DataTypeView {
        DataTypeView {
            constructors: self.constructors.deep_view(),
            doc: self.doc.deep_view(),
            location: self.location,
            name: self.name@,
            opaque: self.opaque,
            parameters: self.parameters.deep_view(),
            public: self.public,
            typed_parameters: self.typed_parameters@.len(),
        }
    }
}

impl UseView {
    /// Whether every span in the import is a range of a text of `len` bytes.
    pub open spec fn spans_within(self, len: nat) -> bool {
        &&& self.location.within(len)
        &&& forall|i: int|
            0 <= i < self.unqualified.len() ==> (#[trigger] self.unqualified[i]).location.within(len)
    }
}

impl TypeAliasView {
    /// Whether every span in the alias is a range of a text of `len` bytes.
    pub open spec fn spans_within(self, len: nat) -> bool {
        self.location.within(len) && self.annotation.spans_within(len)
    }
}

impl RecordConstructorArgView {
    pub open spec fn spans_within(self, len: nat) -> bool {
        self.location.within(len) && self.annotation.spans_within(len)
    }
}

impl RecordConstructorView {
    pub open spec fn spans_within(self, len: nat) -> bool {
        &&& self.location.within(len)
        &&& forall|i: int|
            0 <= i < self.arguments.len() ==> (#[trigger] self.arguments[i]).spans_within(len)
    }
}

impl DataTypeView {
    /// Whether every span in the data type is a range of a text of `len`
    /// bytes.
    pub open spec fn spans_within(self, len: nat) -> bool {
        &&& self.location.within(len)
        &&& forall|i: int|
            0 <= i < self.constructors.len() ==> (#[trigger] self.constructors[i]).spans_within(len)
    }
}

} // verus!
