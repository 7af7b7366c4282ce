//! Name mangling for native functions that a Java runtime looks up through JNI.
//!
//! Given a function and the Java method it implements, [`mangle`] checks the
//! Java names, derives the symbol under which the runtime looks the function
//! up, and describes the definitions to emit: the entry point under that
//! symbol and, on request, an alias under the function's own name that
//! forwards to it. [`mangle_raw`] does the same for a symbol given as it is.

use vstd::prelude::*;
use vstd::string::StringExecFns;

use crate::error::{MangleError, MangleErrorView};
use crate::function::{
    clone_optional, optional_text, parameter_views, texts, Body, BodyView, FunctionSignature,
    FunctionView, Parameter, ParameterView,
};
use crate::utils::escape::{
    escape, escape_string, escapes_to_symbols, is_symbol, lemma_escape_is_symbol,
    lemma_symbol_concat,
};
use crate::utils::validators::{
    is_identifier, is_qualified_name, is_valid_class, is_valid_method, is_valid_package,
};

pub mod error;
pub mod function;
pub mod utils;

verus! {

/// The options of [`mangle`].
#[derive(Debug, PartialEq, Eq)]
pub struct MangleArgs {
    /// Java package name.
    pub package: String,
    /// Java class name.
    pub class: String,
    /// Java method name; the function's own name if not given.
    pub method: Option<String>,
    /// Java argument descriptor, which tells overloaded methods apart.
    pub args: Option<String>,
    /// Whether to keep the function callable under its own name; yes if not
    /// given.
    pub alias: Option<bool>,
}

/// What [`MangleArgs`] hold, as plain text.
pub struct MangleArgsView {
    pub package: Seq<char>,
    pub class: Seq<char>,
    pub method: Option<Seq<char>>,
    pub args: Option<Seq<char>>,
    pub alias: Option<bool>,
}

impl View for MangleArgs {
    type V = MangleArgsView;

    open spec fn view(&self) -> MangleArgsView {
        MangleArgsView {
            package: self.package@,
            class: self.class@,
            method: optional_text(self.method),
            args: optional_text(self.args),
            alias: self.alias,
        }
    }
}

impl Clone for MangleArgs {
    fn clone(&self) -> (copy: Self)
        ensures
            copy@ == self@,
    {
        MangleArgs {
            package: self.package.clone(),
            class: self.class.clone(),
            method: clone_optional(&self.method),
            args: clone_optional(&self.args),
            alias: self.alias,
        }
    }
}

/// The options of [`mangle_raw`].
#[derive(Debug, PartialEq, Eq)]
pub struct MangleRawArgs {
    /// The symbol to define the function under.
    pub name: String,
    /// Whether to keep the function callable under its own name.
    pub alias: bool,
}

/// What [`MangleRawArgs`] hold, as plain text.
pub struct MangleRawArgsView {
    pub name: Seq<char>,
    pub alias: bool,
}

impl View for MangleRawArgs {
    type V = MangleRawArgsView;

    open spec fn view(&self) -> MangleRawArgsView {
        MangleRawArgsView { name: self.name@, alias: self.alias }
    }
}

impl Clone for MangleRawArgs {
    fn clone(&self) -> (copy: Self)
        ensures
            copy@ == self@,
    {
        MangleRawArgs { name: self.name.clone(), alias: self.alias }
    }
}

/// The definitions to emit for one function.
#[derive(Debug, PartialEq, Eq)]
pub struct GeneratedFunctions {
    /// The function under its symbol, with its own body.
    pub entry_point: FunctionSignature,
    /// The function under its own name, forwarding to the entry point.
    pub alias: Option<FunctionSignature>,
}

/// What [`GeneratedFunctions`] hold, as plain text.
pub struct GeneratedView {
    pub entry_point: FunctionView,
    pub alias: Option<FunctionView>,
}

impl View for GeneratedFunctions {
    type V = GeneratedView;

    open spec fn view(&self) -> GeneratedView {
        GeneratedView {
            entry_point: self.entry_point@,
            alias: match self.alias {
                Some(alias) => Some(alias@),
                None => None,
            },
        }
    }
}

/// What a call of the generator came to, as plain text.
pub open spec fn outcome(result: Result<GeneratedFunctions, MangleError>) -> Result<
    GeneratedView,
    MangleErrorView,
> {
    match result {
        Ok(generated) => Ok(generated@),
        Err(error) => Err(error@),
    }
}

/// The calling convention of every entry point.
pub open spec fn entry_point_abi() -> Seq<char> {
    "system"@
}

/// The attributes put before every generated definition: they keep the
/// compiler from decorating the symbol and from objecting to its spelling.
pub open spec fn linkage_attributes() -> Seq<Seq<char>> {
    seq!["#[no_mangle]"@, "#[allow(non_snake_case)]"@]
}

/// Whether one of the parameters is a receiver.
pub open spec fn has_receiver(parameters: Seq<ParameterView>) -> bool {
    exists|i: int| 0 <= i < parameters.len() && parameters[i] is Receiver
}

/// The binding patterns of the parameters, in order.
pub open spec fn patterns(parameters: Seq<ParameterView>) -> Seq<Seq<char>> {
    parameters.map_values(|p: ParameterView| p->pattern)
}

/// The entry point for `function` under the symbol `name`: the same
/// function, renamed, with the entry point's calling convention and the
/// linkage attributes before its own.
pub open spec fn entry_point(name: Seq<char>, function: FunctionView) -> FunctionView {
    FunctionView {
        name,
        abi: Some(entry_point_abi()),
        attributes: linkage_attributes() + function.attributes,
        ..function
    }
}

/// The alias of `function` for the entry point `target`: the same function
/// under its own name, with the linkage attributes before its own, whose body
/// is one call of `target` with every parameter's pattern, in order.
pub open spec fn forwarding_alias(target: Seq<char>, function: FunctionView) -> FunctionView {
    FunctionView {
        attributes: linkage_attributes() + function.attributes,
        body: BodyView::Forward { callee: target, arguments: patterns(function.parameters) },
        ..function
    }
}

/// What [`mangle_raw`] generates.
///
/// The entry point is always generated, and the alias if it is asked for.
/// An alias cannot be generated for a function with a receiver: then the
/// result is an error and nothing is generated.
pub open spec fn generate_raw(args: MangleRawArgsView, function: FunctionView) -> Result<
    GeneratedView,
    MangleErrorView,
> {
    if args.alias && has_receiver(function.parameters) {
        Err(MangleErrorView::UnsupportedReceiverParameter)
    } else {
        Ok(
            GeneratedView {
                entry_point: entry_point(args.name, function),
                alias: if args.alias {
                    Some(forwarding_alias(args.name, function))
                } else {
                    None
                },
            },
        )
    }
}

fn with_linkage_attributes(attributes: &Vec<String>) -> (all: Vec<String>)
    ensures
        texts(all@) == linkage_attributes() + texts(attributes@),
{
    let mut all: Vec<String> = Vec::new();
    all.push("#[no_mangle]".to_owned());
    all.push("#[allow(non_snake_case)]".to_owned());
    for i in 0..attributes.len()
        invariant
            all.len() == i + 2,
            all[0]@ == "#[no_mangle]"@,
            all[1]@ == "#[allow(non_snake_case)]"@,
            forall|j: int| 0 <= j < i ==> all[j + 2]@ == attributes[j]@,
    {
        all.push(attributes[i].clone());
    }
    assert(texts(all@) =~= linkage_attributes() + texts(attributes@));
    all
}

fn forwarded_patterns(parameters: &Vec<Parameter>) -> (arguments: Option<Vec<String>>)
    ensures
        match arguments {
            Some(arguments) => {
                &&& !has_receiver(parameter_views(parameters@))
                &&& texts(arguments@) == patterns(parameter_views(parameters@))
            },
            None => has_receiver(parameter_views(parameters@)),
        },
{
    let ghost views = parameter_views(parameters@);
    let mut arguments: Vec<String> = Vec::new();
    for i in 0..parameters.len()
        invariant
            views == parameter_views(parameters@),
            arguments.len() == i,
            forall|j: int| 0 <= j < i ==> views[j] is Typed && arguments[j]@ == views[j]->pattern,
    {
        match &parameters[i] {
            Parameter::Receiver => {
                assert(views[i as int] is Receiver);
                return None;
            },
            Parameter::Typed { pattern, ty: _ } => {
                arguments.push(pattern.clone());
            },
        }
    }
    assert(texts(arguments@) =~= patterns(views));
    Some(arguments)
}

/// Describes the definitions for `function` under the symbol `args.name`,
/// which is taken as it is.
///
/// The entry point is always described. The alias is described if
/// `args.alias` asks for it; it cannot be where the function has a receiver,
/// and then nothing is generated.
pub fn mangle_raw(args: &MangleRawArgs, function: &FunctionSignature) -> (result: Result<
    GeneratedFunctions,
    MangleError,
>)
    ensures
        outcome(result) == generate_raw(args@, function@),
{
    let entry_point = FunctionSignature {
        name: args.name.clone(),
        abi: Some("system".to_owned()),
        attributes: with_linkage_attributes(&function.attributes),
        ..function.clone()
    };
    if !args.alias {
        return Ok(GeneratedFunctions { entry_point, alias: None });
    }
    match forwarded_patterns(&function.parameters) {
        None => Err(MangleError::UnsupportedReceiverParameter),
        Some(arguments) => {
            let alias = FunctionSignature {
                attributes: with_linkage_attributes(&function.attributes),
                body: Body::Forward { callee: args.name.clone(), arguments },
                ..function.clone()
            };
            Ok(GeneratedFunctions { entry_point, alias: Some(alias) })
        },
    }
}

/// The symbol under which the Java runtime looks up the native method
/// `method` of `class` in `package`: `Java_`, then the escaped package, class
/// and method with `_` between them, and after `__` the escaped argument
/// descriptor where one is given.
pub open spec fn java_symbol(
    package: Seq<char>,
    class: Seq<char>,
    method: Seq<char>,
    args: Option<Seq<char>>,
) -> Seq<char> {
    let name = "Java_"@ + escape(package) + "_"@ + escape(class) + "_"@ + escape(method);
    match args {
        Some(args) => name + "__"@ + escape(args),
        None => name,
    }
}

/// The Java method name that [`mangle`] uses: the one given, else the
/// function's own name.
pub open spec fn effective_method(args: MangleArgsView, function: FunctionView) -> Seq<char> {
    match args.method {
        Some(method) => method,
        None => function.name,
    }
}

/// What [`mangle`] generates.
///
/// The package is checked first, then the class, then the method, and the
/// first of them that is refused is the error. If all three pass, the result
/// is that of [`mangle_raw`] for the mangled name.
pub open spec fn generate(args: MangleArgsView, function: FunctionView) -> Result<
    GeneratedView,
    MangleErrorView,
> {
    let method = effective_method(args, function);
    if !is_qualified_name(args.package) {
        Err(MangleErrorView::InvalidPackage(args.package))
    } else if !is_qualified_name(args.class) {
        Err(MangleErrorView::InvalidClass(args.class))
    } else if !is_identifier(method) {
        Err(MangleErrorView::InvalidMethod(method))
    } else {
        generate_raw(
            MangleRawArgsView {
                name: java_symbol(args.package, args.class, method, args.args),
                alias: match args.alias {
                    Some(alias) => alias,
                    None => true,
                },
            },
            function,
        )
    }
}

/// Builds the symbol for a Java method from its names, which are escaped but
/// not checked.
pub fn mangled_name(package: &str, class: &str, method: &str, args: Option<&str>) -> (name:
    String)
    ensures
        name@ == java_symbol(
            package@,
            class@,
            method@,
            match args {
                Some(args) => Some(args@),
                None => None,
            },
        ),
{
    let mut name = "Java_".to_owned();
    name.append(escape_string(package).as_str());
    name.append("_");
    name.append(escape_string(class).as_str());
    name.append("_");
    name.append(escape_string(method).as_str());
    if let Some(args) = args {
        name.append("__");
        name.append(escape_string(args).as_str());
    }
    name
}

/// Describes the definitions that make `function` the native method that
/// `args` name.
///
/// The names are checked as Java names, and nothing is generated unless all
/// of them pass. An alias is described unless `args.alias` declines it.
pub fn mangle(args: &MangleArgs, function: &FunctionSignature) -> (result: Result<
    GeneratedFunctions,
    MangleError,
>)
    ensures
        outcome(result) == generate(args@, function@),
{
    let method = match &args.method {
        Some(method) => method,
        None => &function.name,
    };
    if !is_valid_package(args.package.as_str()) {
        return Err(MangleError::InvalidPackage(args.package.clone()));
    }
    if !is_valid_class(args.class.as_str()) {
        return Err(MangleError::InvalidClass(args.class.clone()));
    }
    if !is_valid_method(method.as_str()) {
        return Err(MangleError::InvalidMethod(method.clone()));
    }
    let descriptor = match &args.args {
        Some(args) => Some(args.as_str()),
        None => None,
    };
    let name = mangled_name(
        args.package.as_str(),
        args.class.as_str(),
        method.as_str(),
        descriptor,
    );
    let alias = match args.alias {
        Some(alias) => alias,
        None => true,
    };
    mangle_raw(&MangleRawArgs { name, alias }, function)
}

/// A mangled name is fit for a symbol exactly if the escaped forms of all its
/// parts are. Valid Java names meet this unless they hold a `$`, which
/// escaping leaves as it is.
pub proof fn lemma_java_symbol_is_symbol(
    package: Seq<char>,
    class: Seq<char>,
    method: Seq<char>,
    args: Option<Seq<char>>,
)
    ensures
        is_symbol(java_symbol(package, class, method, args)) <==> {
            &&& escapes_to_symbols(package)
            &&& escapes_to_symbols(class)
            &&& escapes_to_symbols(method)
            &&& args matches Some(args) ==> escapes_to_symbols(args)
        },
{
    reveal_strlit("Java_");
    reveal_strlit("_");
    reveal_strlit("__");
    lemma_escape_is_symbol(package);
    lemma_escape_is_symbol(class);
    lemma_escape_is_symbol(method);
    let a = "Java_"@ + escape(package);
    let b = a + "_"@;
    let c = b + escape(class);
    let d = c + "_"@;
    let name = d + escape(method);
    lemma_symbol_concat("Java_"@, escape(package));
    lemma_symbol_concat(a, "_"@);
    lemma_symbol_concat(b, escape(class));
    lemma_symbol_concat(c, "_"@);
    lemma_symbol_concat(d, escape(method));
    if let Some(args) = args {
        lemma_escape_is_symbol(args);
        lemma_symbol_concat(name, "__"@);
        lemma_symbol_concat(name + "__"@, escape(args));
    }
}

/// Whenever something is generated, the entry point is the function itself
/// under the symbol, and the alias, which is there exactly if it was asked
/// for, is the function under its own name, calling the entry point with its
/// own parameters in their order. Nothing is generated only where an alias
/// is asked for a function with a receiver.
pub proof fn lemma_alias_forwards_to_entry_point(args: MangleRawArgsView, function: FunctionView)
    ensures
        match generate_raw(args, function) {
            Ok(generated) => {
                &&& generated.entry_point.name == args.name
                &&& generated.entry_point.parameters == function.parameters
                &&& generated.entry_point.return_type == function.return_type
                &&& generated.entry_point.body == function.body
                &&& generated.alias is Some <==> args.alias
                &&& generated.alias matches Some(alias) ==> {
                    &&& alias.name == function.name
                    &&& alias.parameters == generated.entry_point.parameters
                    &&& alias.return_type == generated.entry_point.return_type
                    &&& alias.abi == function.abi
                    &&& alias.body == BodyView::Forward {
                        callee: generated.entry_point.name,
                        arguments: patterns(generated.entry_point.parameters),
                    }
                }
            },
            Err(error) => {
                &&& error is UnsupportedReceiverParameter
                &&& args.alias
                &&& has_receiver(function.parameters)
            },
        },
{
}

/// [`mangle`] depends on nothing but the text of its inputs: whatever two
/// runs on the same options and the same function came to, they came to the
/// same, down to the mangled name and the forwarding body.
pub proof fn lemma_mangle_is_repeatable(
    args: MangleArgs,
    function: FunctionSignature,
    again_args: MangleArgs,
    again_function: FunctionSignature,
    first: Result<GeneratedFunctions, MangleError>,
    second: Result<GeneratedFunctions, MangleError>,
)
    requires
        args@ == again_args@,
        function@ == again_function@,
        outcome(first) == generate(args@, function@),
        outcome(second) == generate(again_args@, again_function@),
    ensures
        outcome(first) == outcome(second),
        first matches Ok(first) ==> second matches Ok(second) && first.entry_point@.name
            == second.entry_point@.name && (first.alias matches Some(alias)
            ==> second.alias matches Some(again) && alias@.body == again@.body),
{
}

/// [`mangle_raw`] depends on nothing but the text of its inputs, as
/// [`mangle`] does.
pub proof fn lemma_mangle_raw_is_repeatable(
    args: MangleRawArgs,
    function: FunctionSignature,
    again_args: MangleRawArgs,
    again_function: FunctionSignature,
    first: Result<GeneratedFunctions, MangleError>,
    second: Result<GeneratedFunctions, MangleError>,
)
    requires
        args@ == again_args@,
        function@ == again_function@,
        outcome(first) == generate_raw(args@, function@),
        outcome(second) == generate_raw(again_args@, again_function@),
    ensures
        outcome(first) == outcome(second),
        first matches Ok(first) ==> second matches Ok(second) && first.entry_point@.name
            == second.entry_point@.name && (first.alias matches Some(alias)
            ==> second.alias matches Some(again) && alias@.body == again@.body),
{
}

} // verus!
