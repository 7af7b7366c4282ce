use jni_mangle::error::MangleError;
use jni_mangle::function::{Body, FunctionSignature, Parameter};
use jni_mangle::{mangle, mangle_raw, mangled_name, GeneratedFunctions, MangleArgs, MangleRawArgs};

fn typed(pattern: &str, ty: &str) -> Parameter {
    Parameter::Typed { pattern: pattern.to_string(), ty: ty.to_string() }
}

fn add_two_numbers() -> FunctionSignature {
    FunctionSignature {
        name: "add_two_numbers".to_string(),
        parameters: vec![typed("a", "i32"), typed("b", "i32")],
        return_type: Some("i32".to_string()),
        visibility: "pub".to_string(),
        abi: None,
        attributes: vec!["#[inline]".to_string()],
        body: Body::Block("{ a + b }".to_string()),
    }
}

fn method_of_an_instance() -> FunctionSignature {
    FunctionSignature {
        name: "area".to_string(),
        parameters: vec![Parameter::Receiver, typed("scale", "u32")],
        return_type: Some("u32".to_string()),
        visibility: String::new(),
        abi: Some("C".to_string()),
        attributes: vec![],
        body: Body::Block("{ self.side * scale }".to_string()),
    }
}

fn example_args() -> MangleArgs {
    MangleArgs {
        package: "com.example".to_string(),
        class: "Example".to_string(),
        method: Some("addTwoNumbers".to_string()),
        args: None,
        alias: None,
    }
}

fn linkage_attributes() -> Vec<String> {
    vec!["#[no_mangle]".to_string(), "#[allow(non_snake_case)]".to_string()]
}

fn generated(args: &MangleArgs, function: &FunctionSignature) -> GeneratedFunctions {
    match mangle(args, function) {
        Ok(generated) => generated,
        Err(error) => panic!("{}", error.message()),
    }
}

#[test]
fn binding_gets_the_mangled_name() {
    let generated = generated(&example_args(), &add_two_numbers());
    assert_eq!(generated.entry_point.name, "Java_com_example_Example_addTwoNumbers");
}

#[test]
fn entry_point_keeps_the_function_and_gains_linkage() {
    let function = add_two_numbers();
    let generated = generated(&example_args(), &function);
    let mut attributes = linkage_attributes();
    attributes.push("#[inline]".to_string());
    let expected = FunctionSignature {
        name: "Java_com_example_Example_addTwoNumbers".to_string(),
        parameters: vec![typed("a", "i32"), typed("b", "i32")],
        return_type: Some("i32".to_string()),
        visibility: "pub".to_string(),
        abi: Some("system".to_string()),
        attributes,
        body: Body::Block("{ a + b }".to_string()),
    };
    assert_eq!(generated.entry_point, expected);
    assert_eq!(function, add_two_numbers());
}

#[test]
fn alias_forwards_every_parameter_in_order() {
    let generated = generated(&example_args(), &add_two_numbers());
    let mut attributes = linkage_attributes();
    attributes.push("#[inline]".to_string());
    let expected = FunctionSignature {
        name: "add_two_numbers".to_string(),
        parameters: vec![typed("a", "i32"), typed("b", "i32")],
        return_type: Some("i32".to_string()),
        visibility: "pub".to_string(),
        abi: None,
        attributes,
        body: Body::Forward {
            callee: "Java_com_example_Example_addTwoNumbers".to_string(),
            arguments: vec!["a".to_string(), "b".to_string()],
        },
    };
    assert_eq!(generated.alias, Some(expected));
}

#[test]
fn alias_is_generated_unless_declined() {
    let mut args = example_args();
    args.alias = Some(true);
    assert!(generated(&args, &add_two_numbers()).alias.is_some());
    args.alias = None;
    assert!(generated(&args, &add_two_numbers()).alias.is_some());
}

#[test]
fn declined_alias_leaves_only_the_entry_point() {
    let mut args = example_args();
    args.alias = Some(false);
    let generated = generated(&args, &add_two_numbers());
    assert_eq!(generated.entry_point.name, "Java_com_example_Example_addTwoNumbers");
    assert_eq!(generated.entry_point.body, Body::Block("{ a + b }".to_string()));
    assert_eq!(generated.alias, None);
}

#[test]
fn argument_descriptor_is_appended_after_two_underscores() {
    let mut args = example_args();
    args.args = Some("II".to_string());
    let generated = generated(&args, &add_two_numbers());
    assert_eq!(generated.entry_point.name, "Java_com_example_Example_addTwoNumbers__II");
    match generated.alias {
        Some(FunctionSignature { body: Body::Forward { callee, .. }, .. }) => {
            assert_eq!(callee, "Java_com_example_Example_addTwoNumbers__II")
        }
        other => panic!("{:?}", other),
    }
}

#[test]
fn argument_descriptor_is_escaped() {
    let mut args = example_args();
    args.args = Some("ILjava.lang.String;[I".to_string());
    let generated = generated(&args, &add_two_numbers());
    assert_eq!(
        generated.entry_point.name,
        "Java_com_example_Example_addTwoNumbers__ILjava_lang_String_2_3I"
    );
}

#[test]
fn method_defaults_to_the_name_of_the_function() {
    let mut args = example_args();
    args.method = None;
    let generated = generated(&args, &add_two_numbers());
    assert_eq!(generated.entry_point.name, "Java_com_example_Example_add_1two_1numbers");
}

#[test]
fn mangled_name_joins_the_escaped_parts() {
    assert_eq!(
        mangled_name("com.example", "Example", "addTwoNumbers", None),
        "Java_com_example_Example_addTwoNumbers"
    );
    assert_eq!(
        mangled_name("com.example", "Example", "addTwoNumbers", Some("II")),
        "Java_com_example_Example_addTwoNumbers__II"
    );
    assert_eq!(
        mangled_name("my_package", "Outer.Inner", "function_for_java", Some("")),
        "Java_my_1package_Outer_Inner_function_1for_1java__"
    );
    assert_eq!(mangled_name("", "", "", None), "Java___");
    assert_eq!(mangled_name("p", "C", "m\u{E9}", None), "Java_p_C_m_000e9");
}

#[test]
fn invalid_package_is_reported_with_the_package() {
    let mut args = example_args();
    args.package = "123abc".to_string();
    let error = mangle(&args, &add_two_numbers()).unwrap_err();
    assert_eq!(error, MangleError::InvalidPackage("123abc".to_string()));
    assert_eq!(error.message(), "Invalid Java package name");
    assert_eq!(error.fragment(), Some(&"123abc".to_string()));
}

#[test]
fn invalid_class_is_reported_with_the_class() {
    let mut args = example_args();
    args.class = "Exa mple".to_string();
    let error = mangle(&args, &add_two_numbers()).unwrap_err();
    assert_eq!(error, MangleError::InvalidClass("Exa mple".to_string()));
    assert_eq!(error.message(), "Invalid Java class name");
    assert_eq!(error.fragment(), Some(&"Exa mple".to_string()));
}

#[test]
fn invalid_method_is_reported_with_the_method() {
    let mut args = example_args();
    args.method = Some("my.method".to_string());
    let error = mangle(&args, &add_two_numbers()).unwrap_err();
    assert_eq!(error, MangleError::InvalidMethod("my.method".to_string()));
    assert_eq!(error.message(), "Invalid Java method name");
    assert_eq!(error.fragment(), Some(&"my.method".to_string()));
}

#[test]
fn invalid_function_name_is_reported_when_no_method_is_given() {
    let mut args = example_args();
    args.method = None;
    let mut function = add_two_numbers();
    function.name = "r#try".to_string();
    let error = mangle(&args, &function).unwrap_err();
    assert_eq!(error, MangleError::InvalidMethod("r#try".to_string()));
}

#[test]
fn given_method_stands_in_for_an_invalid_function_name() {
    let mut function = add_two_numbers();
    function.name = "r#try".to_string();
    let generated = generated(&example_args(), &function);
    assert_eq!(generated.entry_point.name, "Java_com_example_Example_addTwoNumbers");
    assert_eq!(generated.alias.map(|alias| alias.name), Some("r#try".to_string()));
}

#[test]
fn package_is_checked_before_class_before_method() {
    let mut args = example_args();
    args.package = "".to_string();
    args.class = "".to_string();
    args.method = Some("".to_string());
    assert_eq!(
        mangle(&args, &add_two_numbers()),
        Err(MangleError::InvalidPackage("".to_string()))
    );
    args.package = "com.example".to_string();
    assert_eq!(mangle(&args, &add_two_numbers()), Err(MangleError::InvalidClass("".to_string())));
    args.class = "Example".to_string();
    assert_eq!(mangle(&args, &add_two_numbers()), Err(MangleError::InvalidMethod("".to_string())));
}

#[test]
fn names_are_checked_before_the_receiver() {
    let mut args = example_args();
    args.method = Some("9lives".to_string());
    assert_eq!(
        mangle(&args, &method_of_an_instance()),
        Err(MangleError::InvalidMethod("9lives".to_string()))
    );
}

#[test]
fn alias_of_a_method_with_a_receiver_is_refused() {
    let error = mangle(&example_args(), &method_of_an_instance()).unwrap_err();
    assert_eq!(error, MangleError::UnsupportedReceiverParameter);
    assert_eq!(error.message(), "Cannot alias a method with a receiver");
    assert_eq!(error.fragment(), None);
    let raw = MangleRawArgs { name: "Java_Shape_area".to_string(), alias: true };
    assert_eq!(
        mangle_raw(&raw, &method_of_an_instance()),
        Err(MangleError::UnsupportedReceiverParameter)
    );
}

#[test]
fn receiver_anywhere_among_the_parameters_is_refused() {
    let mut function = add_two_numbers();
    function.parameters.push(Parameter::Receiver);
    let raw = MangleRawArgs { name: "Java_add".to_string(), alias: true };
    assert_eq!(mangle_raw(&raw, &function), Err(MangleError::UnsupportedReceiverParameter));
}

#[test]
fn receiver_is_no_obstacle_without_an_alias() {
    let raw = MangleRawArgs { name: "Java_Shape_area".to_string(), alias: false };
    let generated = mangle_raw(&raw, &method_of_an_instance()).unwrap();
    assert_eq!(generated.alias, None);
    assert_eq!(generated.entry_point.name, "Java_Shape_area");
    assert_eq!(generated.entry_point.parameters, method_of_an_instance().parameters);
    assert_eq!(generated.entry_point.abi, Some("system".to_string()));
    assert_eq!(generated.entry_point.attributes, linkage_attributes());
}

#[test]
fn raw_name_is_taken_as_it_is() {
    let raw = MangleRawArgs { name: "not a symbol; at.all".to_string(), alias: true };
    let generated = mangle_raw(&raw, &add_two_numbers()).unwrap();
    assert_eq!(generated.entry_point.name, "not a symbol; at.all");
    match generated.alias {
        Some(FunctionSignature { body: Body::Forward { callee, arguments }, .. }) => {
            assert_eq!(callee, "not a symbol; at.all");
            assert_eq!(arguments, vec!["a".to_string(), "b".to_string()]);
        }
        other => panic!("{:?}", other),
    }
}

#[test]
fn alias_keeps_the_calling_convention_of_the_function() {
    let mut function = add_two_numbers();
    function.abi = Some("C".to_string());
    let raw = MangleRawArgs { name: "Java_add".to_string(), alias: true };
    let generated = mangle_raw(&raw, &function).unwrap();
    assert_eq!(generated.entry_point.abi, Some("system".to_string()));
    assert_eq!(generated.alias.unwrap().abi, Some("C".to_string()));
}

#[test]
fn function_without_parameters_forwards_an_empty_call() {
    let function = FunctionSignature {
        name: "function_for_java".to_string(),
        parameters: vec![],
        return_type: None,
        visibility: "pub".to_string(),
        abi: None,
        attributes: vec![],
        body: Body::Block("{ }".to_string()),
    };
    let raw = MangleRawArgs { name: "Java_com_example_Example_f".to_string(), alias: true };
    let alias = mangle_raw(&raw, &function).unwrap().alias.unwrap();
    assert_eq!(
        alias.body,
        Body::Forward { callee: "Java_com_example_Example_f".to_string(), arguments: vec![] }
    );
}

#[test]
fn patterns_are_forwarded_as_written() {
    let mut function = add_two_numbers();
    function.parameters = vec![typed("(x, y)", "(i32, i32)"), typed("mut total", "i64")];
    let raw = MangleRawArgs { name: "Java_sum".to_string(), alias: true };
    let alias = mangle_raw(&raw, &function).unwrap().alias.unwrap();
    assert_eq!(
        alias.body,
        Body::Forward {
            callee: "Java_sum".to_string(),
            arguments: vec!["(x, y)".to_string(), "mut total".to_string()],
        }
    );
}

#[test]
fn generation_is_repeatable() {
    let mut args = example_args();
    args.args = Some("II".to_string());
    let first = mangle(&args, &add_two_numbers());
    let second = mangle(&args.clone(), &add_two_numbers().clone());
    assert_eq!(first, second);
    let raw = MangleRawArgs { name: "Java_add".to_string(), alias: true };
    assert_eq!(mangle_raw(&raw, &add_two_numbers()), mangle_raw(&raw.clone(), &add_two_numbers()));
}

#[test]
fn copies_of_a_function_are_equal_to_it() {
    let function = method_of_an_instance();
    assert_eq!(function.clone(), function);
    let forwarding = Body::Forward { callee: "f".to_string(), arguments: vec!["a".to_string()] };
    assert_eq!(forwarding.clone(), forwarding);
}

#[test]
fn valid_names_with_the_same_symbol_are_the_same() {
    let names = ["a", "a_", "a.b", "a_b", "a$b", "a.b.c", "a_1b", "a.b1", "_1", "_"];
    for first in names {
        for second in names {
            let same = mangled_name(first, "C", "m", None) == mangled_name(second, "C", "m", None);
            assert_eq!(same, first == second, "{:?} and {:?}", first, second);
        }
    }
}
