//! A function as the generator sees it: its name, its parameters and the
//! pieces of source text that are carried through unchanged.

use vstd::prelude::*;

verus! {

/// One parameter of a function.
#[derive(Debug, PartialEq, Eq)]
pub enum Parameter {
    /// The instance that a method is bound to: `self`, `&self` or `&mut self`.
    Receiver,
    /// An ordinary parameter, with the source text of its binding pattern and
    /// of its type.
    Typed { pattern: String, ty: String },
}

/// What a [`Parameter`] is, as plain text.
pub enum ParameterView {
    Receiver,
    Typed { pattern: Seq<char>, ty: Seq<char> },
}

impl View for Parameter {
    type V = ParameterView;

    open spec fn view(&self) -> ParameterView {
        match self {
            Parameter::Receiver => ParameterView::Receiver,
            Parameter::Typed { pattern, ty } => ParameterView::Typed { pattern: pattern@, ty: ty@ },
        }
    }
}

impl Clone for Parameter {
    fn clone(&self) -> (copy: Self)
        ensures
            copy@ == self@,
    {
        match self {
            Parameter::Receiver => Parameter::Receiver,
            Parameter::Typed { pattern, ty } => Parameter::Typed {
                pattern: pattern.clone(),
                ty: ty.clone(),
            },
        }
    }
}

/// The body of a function.
#[derive(Debug, PartialEq, Eq)]
pub enum Body {
    /// A block of code, kept as its source text.
    Block(String),
    /// A single call of `callee` with the given argument expressions, in order.
    Forward { callee: String, arguments: Vec<String> },
}

/// What a [`Body`] is, as plain text.
pub enum BodyView {
    Block(Seq<char>),
    Forward { callee: Seq<char>, arguments: Seq<Seq<char>> },
}

/// The texts that a list of strings holds.
pub open spec fn texts(strings: Seq<String>) -> Seq<Seq<char>> {
    strings.map_values(|s: String| s@)
}

impl View for Body {
    type V = BodyView;

    open spec fn view(&self) -> BodyView {
        match self {
            Body::Block(source) => BodyView::Block(source@),
            Body::Forward { callee, arguments } => BodyView::Forward {
                callee: callee@,
                arguments: texts(arguments@),
            },
        }
    }
}

impl Clone for Body {
    fn clone(&self) -> (copy: Self)
        ensures
            copy@ == self@,
    {
        match self {
            Body::Block(source) => Body::Block(source.clone()),
            Body::Forward { callee, arguments } => Body::Forward {
                callee: callee.clone(),
                arguments: clone_strings(arguments),
            },
        }
    }
}

/// A function definition.
///
/// The name and the parameters are what generation reads. The other fields
/// hold source text that it hands on as it is.
#[derive(Debug, PartialEq, Eq)]
pub struct FunctionSignature {
    /// The name under which the function is defined.
    pub name: String,
    /// The parameters, in the order of their declaration.
    pub parameters: Vec<Parameter>,
    /// The return type, where one is written.
    pub return_type: Option<String>,
    /// The visibility, such as `pub`; empty for a private function.
    pub visibility: String,
    /// The name of the calling convention, such as `C` or `system`, where the
    /// function is declared `extern`; empty where `extern` stands alone.
    pub abi: Option<String>,
    /// The attributes, outermost first, each as its whole text.
    pub attributes: Vec<String>,
    /// The body.
    pub body: Body,
}

/// What a [`FunctionSignature`] is, as plain text.
pub struct FunctionView {
    pub name: Seq<char>,
    pub parameters: Seq<ParameterView>,
    pub return_type: Option<Seq<char>>,
    pub visibility: Seq<char>,
    pub abi: Option<Seq<char>>,
    pub attributes: Seq<Seq<char>>,
    pub body: BodyView,
}

/// The text of a string that may be absent.
pub open spec fn optional_text(s: Option<String>) -> Option<Seq<char>> {
    match s {
        Some(s) => Some(s@),
        None => None,
    }
}

/// The views of a list of parameters.
pub open spec fn parameter_views(parameters: Seq<Parameter>) -> Seq<ParameterView> {
    parameters.map_values(|p: Parameter| p@)
}

impl View for FunctionSignature {
    type V = FunctionView;

    open spec fn view(&self) -> FunctionView {
        FunctionView {
            name: self.name@,
            parameters: parameter_views(self.parameters@),
            return_type: optional_text(self.return_type),
            visibility: self.visibility@,
            abi: optional_text(self.abi),
            attributes: texts(self.attributes@),
            body: self.body@,
        }
    }
}

/// Copies a string that may be absent.
pub(crate) fn clone_optional(s: &Option<String>) -> (copy: Option<String>)
    ensures
        optional_text(copy) == optional_text(*s),
{
    match s {
        Some(s) => Some(s.clone()),
        None => None,
    }
}

/// Copies a list of strings.
fn clone_strings(strings: &Vec<String>) -> (copy: Vec<String>)
    ensures
        texts(copy@) == texts(strings@),
{
    let copy = strings.clone();
    assert(texts(copy@) =~= texts(strings@));
    copy
}

impl Clone for FunctionSignature {
    fn clone(&self) -> (copy: Self)
        ensures
            copy@ == self@,
    {
        let parameters = self.parameters.clone();
        assert(parameter_views(parameters@) =~= parameter_views(self.parameters@));
        FunctionSignature {
            name: self.name.clone(),
            parameters,
            return_type: clone_optional(&self.return_type),
            visibility: self.visibility.clone(),
            abi: clone_optional(&self.abi),
            attributes: clone_strings(&self.attributes),
            body: self.body.clone(),
        }
    }
}

} // verus!
