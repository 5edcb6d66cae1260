use rmcp_macros::attrs::{
    AnnotationValue, AttrError, Expected, FnItemAttrs, ImplItemAttrs, ParamMarker,
};
use rmcp_macros::classify::{attr_roles, classify, AttrRole, ClassifyError, FnInput, ParamAttr, ToolParams};
use rmcp_macros::text::{description_from_docs, record_type_name, trim};
use rmcp_macros::token::{find_entry_end, Delim, Tok};
use rmcp_macros::tool_fn::{
    plan_tool_fn, DescriptionSource, NameSource, SchemaSource, ToolFnDecl, ToolFnError,
};
use rmcp_macros::tool_impl::{plan_tool_impl, ImplError, ImplMethod, ImplPlan, ToolImplDecl};

fn id(s: &str) -> Tok {
    Tok::Ident(s.to_string())
}

fn pu(c: char) -> Tok {
    Tok::Punct(c)
}

fn st(s: &str) -> Tok {
    Tok::Str(s.to_string())
}

fn receiver() -> FnInput {
    FnInput { is_receiver: true, ident: None }
}

fn param(name: &str) -> FnInput {
    FnInput { is_receiver: false, ident: Some(name.to_string()) }
}

fn decl(ident: &str, docs: &[&str], inputs: Vec<FnInput>) -> ToolFnDecl {
    ToolFnDecl {
        ident: ident.to_string(),
        is_async: false,
        docs: docs.iter().map(|d| d.to_string()).collect(),
        inputs,
    }
}

fn method(ident: &str, tool: bool) -> ImplMethod {
    let mut attr_paths = vec![Some("doc".to_string())];
    if tool {
        attr_paths.push(Some("tool".to_string()));
    }
    ImplMethod { ident: ident.to_string(), attr_paths }
}

fn text_of(ts: &[Tok], start: usize) -> String {
    match &ts[start] {
        Tok::Str(s) => s.clone(),
        other => panic!("not a string literal: {:?}", other),
    }
}

#[test]
fn test_tool_sync_macro() {
    let attr = vec![
        id("name"), pu('='), st("test_tool"), pu(','),
        id("description"), pu('='), st("test tool"), pu(','),
        id("vis"), pu('='),
    ];
    let d = decl("sum", &[], vec![receiver(), param("req")]);
    let plan = plan_tool_fn(&attr, &d).unwrap();
    match plan.name {
        NameSource::Expr(r) => assert_eq!(text_of(&attr, r.start), "test_tool"),
        other => panic!("{:?}", other),
    }
    match plan.description {
        DescriptionSource::Expr(r) => assert_eq!(text_of(&attr, r.start), "test tool"),
        other => panic!("{:?}", other),
    }
    let vis = plan.vis.unwrap();
    assert_eq!(vis.start, vis.end);
    assert_eq!(plan.accessor, "sum_tool_attr");
    assert_eq!(plan.wrapper, "sum_tool_call");
    assert_eq!(plan.context_inputs, vec![0]);
}

#[test]
fn test_trait_tool_macro() {
    let attr = vec![id("tool_box"), pu('='), id("Calculator")];
    let d = ToolImplDecl {
        is_trait: true,
        has_generics: false,
        docs: vec![],
        methods: vec![method("get_info", true)],
    };
    match plan_tool_impl(&attr, &d).unwrap() {
        ImplPlan::DeriveFromRegistry { binding } => {
            assert_eq!(binding, "Calculator")
        }
        other => panic!("{:?}", other),
    }
}

#[test]
fn test_doc_comment_description() {
    let d = decl(
        "test_function",
        &[" This is a test description from doc comments", " with multiple lines"],
        vec![receiver()],
    );
    let plan = plan_tool_fn(&vec![], &d).unwrap();
    match plan.description {
        DescriptionSource::Docs(s) => {
            assert!(s.contains("This is a test description from doc comments"));
            assert!(s.contains("with multiple lines"));
            assert_eq!(s, "This is a test description from doc comments\nwith multiple lines");
        }
        other => panic!("{:?}", other),
    }
}

#[test]
fn test_explicit_description_priority() {
    let attr = vec![id("description"), pu('='), st("Explicit description has priority")];
    let d = decl("test_function", &[" Doc comment description that should be ignored"], vec![receiver()]);
    let plan = plan_tool_fn(&attr, &d).unwrap();
    match plan.description {
        DescriptionSource::Expr(r) => {
            assert_eq!(text_of(&attr, r.start), "Explicit description has priority")
        }
        other => panic!("{:?}", other),
    }
}

#[test]
fn no_params_give_empty_schema() {
    let d = decl("ping", &[], vec![receiver()]);
    let plan = plan_tool_fn(&vec![], &d).unwrap();
    assert!(matches!(plan.schema, SchemaSource::Empty));
    assert!(matches!(plan.params, ToolParams::NoParam));
    assert_eq!(plan.context_inputs, vec![0]);
}

#[test]
fn add_with_two_fields() {
    let d = decl("add", &[" adds two numbers"], vec![param("a"), param("b")]);
    let plan = plan_tool_fn(&vec![], &d).unwrap();
    match plan.name {
        NameSource::Ident(n) => assert_eq!(n, "add"),
        other => panic!("{:?}", other),
    }
    match plan.description {
        DescriptionSource::Docs(s) => assert_eq!(s, "adds two numbers"),
        other => panic!("{:?}", other),
    }
    match plan.schema {
        SchemaSource::Record { record_name, fields } => {
            assert_eq!(record_name, "__ADDToolCallParam");
            assert_eq!(fields, vec![0, 1]);
        }
        other => panic!("{:?}", other),
    }
    match plan.params {
        ToolParams::Fields(f) => assert_eq!(f, vec![0, 1]),
        other => panic!("{:?}", other),
    }
    assert!(plan.context_inputs.is_empty());
    assert!(plan.annotations_json.is_none());
}

#[test]
fn aggregated_input_schema() {
    let attr = vec![id("aggr")];
    let d = decl("sum", &[], vec![receiver(), param("req")]);
    let plan = plan_tool_fn(&attr, &d).unwrap();
    assert!(matches!(plan.schema, SchemaSource::Payload(1)));
    assert!(matches!(plan.params, ToolParams::Aggregated(1)));
}

#[test]
fn aggregated_with_another_param_is_refused() {
    let attr = vec![id("aggr")];
    let d = decl("sum", &[], vec![receiver(), param("req"), param("extra")]);
    assert_eq!(
        plan_tool_fn(&attr, &d).unwrap_err(),
        ToolFnError::Params(ClassifyError::MixedParams { input: 2 })
    );
}

#[test]
fn unnamed_field_is_refused() {
    let ins = vec![receiver(), param("a"), FnInput { is_receiver: false, ident: None }];
    assert_eq!(
        classify(false, &ins).unwrap_err(),
        ClassifyError::MissingIdentifier { input: 2 }
    );
}

#[test]
fn three_tools_in_declaration_order() {
    let attr = vec![id("tool_box"), pu('='), id("Router")];
    let d = ToolImplDecl {
        is_trait: false,
        has_generics: false,
        docs: vec![" A calculator".to_string()],
        methods: vec![method("sum", true), method("helper", false), method("sub", true), method("mul", true)],
    };
    match plan_tool_impl(&attr, &d).unwrap() {
        ImplPlan::Registry { tools, binding, instructions } => {
            assert_eq!(tools, vec!["sum", "sub", "mul"]);
            assert_eq!(binding, Some("Router".to_string()));
            match instructions {
                Some(DescriptionSource::Docs(s)) => assert_eq!(s, "A calculator"),
                other => panic!("{:?}", other),
            }
        }
        other => panic!("{:?}", other),
    }
}

#[test]
fn generic_impl_routes_each_tool() {
    let attr = vec![id("tool_box"), pu(','), id("default_build"), pu('='), id("false")];
    let d = ToolImplDecl {
        is_trait: false,
        has_generics: true,
        docs: vec![],
        methods: vec![method("sum", true), method("sub", true), method("mul", true)],
    };
    match plan_tool_impl(&attr, &d).unwrap() {
        ImplPlan::Router { routes, instructions } => {
            assert!(instructions.is_none());
            let names: Vec<_> = routes.iter().map(|r| r.ident.clone()).collect();
            assert_eq!(names, vec!["sum", "sub", "mul"]);
            assert_eq!(routes[1].accessor, "sub_tool_attr");
            assert_eq!(routes[2].wrapper, "mul_tool_call");
        }
        other => panic!("{:?}", other),
    }
}

#[test]
fn generic_trait_impl_without_binding_is_refused() {
    let d = ToolImplDecl { is_trait: true, has_generics: true, docs: vec![], methods: vec![] };
    assert_eq!(plan_tool_impl(&vec![], &d).unwrap_err(), ImplError::MissingBinding);
}

#[test]
fn generic_trait_impl_forwards() {
    let d = ToolImplDecl { is_trait: true, has_generics: true, docs: vec![], methods: vec![] };
    let attr = vec![id("tool_box"), pu('='), id("Svc")];
    assert!(matches!(plan_tool_impl(&attr, &d).unwrap(), ImplPlan::ForwardToInner));
}

#[test]
fn trait_impl_with_bare_tool_box_is_refused() {
    let d = ToolImplDecl { is_trait: true, has_generics: false, docs: vec![], methods: vec![] };
    assert_eq!(plan_tool_impl(&vec![id("tool_box")], &d).unwrap_err(), ImplError::MissingBinding);
}

#[test]
fn inherent_impl_without_binding_is_unchanged() {
    let d = ToolImplDecl { is_trait: false, has_generics: false, docs: vec![], methods: vec![method("a", true)] };
    assert!(matches!(plan_tool_impl(&vec![], &d).unwrap(), ImplPlan::Unchanged));
}

#[test]
fn unknown_keys_are_refused() {
    let attr = vec![id("name"), pu('='), st("x"), pu(','), id("colour"), pu('='), st("red")];
    assert_eq!(FnItemAttrs::parse(&attr).err().unwrap(), AttrError::UnknownAttribute { at: 4 });
    let attr = vec![id("tool_bx")];
    assert_eq!(ImplItemAttrs::parse(&attr).err().unwrap(), AttrError::UnknownAttribute { at: 0 });
    let attr = vec![id("default_build"), pu('='), id("maybe")];
    assert_eq!(ImplItemAttrs::parse(&attr).err().unwrap(), AttrError::UnknownAttribute { at: 0 });
}

#[test]
fn syntax_errors_name_the_token() {
    let attr = vec![id("name"), st("x")];
    assert_eq!(
        FnItemAttrs::parse(&attr).err().unwrap(),
        AttrError::Unexpected { at: 1, expected: Expected::Eq }
    );
    let attr = vec![id("name"), pu('='), pu(','), id("aggr")];
    assert_eq!(
        FnItemAttrs::parse(&attr).err().unwrap(),
        AttrError::Unexpected { at: 2, expected: Expected::Value }
    );
    let attr = vec![id("annotations"), pu('='), st("x")];
    assert_eq!(
        FnItemAttrs::parse(&attr).err().unwrap(),
        AttrError::Unexpected { at: 2, expected: Expected::Braces }
    );
}

#[test]
fn annotations_are_read_and_encoded() {
    let attr = vec![
        id("annotations"), pu('='), Tok::Open(Delim::Brace),
        id("title"), pu(':'), st("Adder"), pu(','),
        id("readOnlyHint"), pu(':'), id("true"), pu(','),
        Tok::Close(Delim::Brace), pu(','), id("aggr"),
    ];
    let a = FnItemAttrs::parse(&attr).ok().unwrap();
    assert!(a.aggr);
    let table = a.annotations.unwrap();
    assert_eq!(table.len(), 2);
    assert_eq!(table[0].key, "title");
    assert!(matches!(&table[0].value, AnnotationValue::Text(s) if s == "Adder"));
    assert!(matches!(table[1].value, AnnotationValue::Flag(true)));
    let d = decl("add", &[], vec![param("req")]);
    let plan = plan_tool_fn(&attr, &d).unwrap();
    assert_eq!(plan.annotations_json.unwrap(), r#"{"readOnlyHint":true,"title":"Adder"}"#);
}

#[test]
fn annotation_literal_must_be_text_or_bool() {
    let attr = vec![
        id("annotations"), pu('='), Tok::Open(Delim::Brace),
        id("title"), pu(':'), Tok::Lit("42".to_string()),
        Tok::Close(Delim::Brace),
    ];
    assert_eq!(
        FnItemAttrs::parse(&attr).err().unwrap(),
        AttrError::InvalidAnnotationLiteral { at: 3 }
    );
}

#[test]
fn impl_defaults_and_description() {
    let a = ImplItemAttrs::parse(&vec![]).unwrap();
    assert!(a.tool_box.is_none());
    assert!(a.default_build);
    let attr = vec![id("description"), pu('='), st("d"), pu(','), id("tool_box")];
    let a = ImplItemAttrs::parse(&attr).unwrap();
    assert_eq!(a.tool_box, Some(None));
    let r = a.description.unwrap();
    assert_eq!((r.start, r.end), (2, 3));
}

#[test]
fn param_markers() {
    assert_eq!(ParamMarker::parse(&vec![id("param")]), Ok(ParamMarker::Param));
    assert_eq!(ParamMarker::parse(&vec![id("aggr")]), Ok(ParamMarker::Aggregated));
    assert_eq!(ParamMarker::parse(&vec![id("req")]), Ok(ParamMarker::Aggregated));
    assert_eq!(ParamMarker::parse(&vec![id("other")]), Err(AttrError::UnknownAttribute { at: 0 }));
}

#[test]
fn entries_end_at_commas_outside_groups() {
    let ts = vec![id("name"), pu('='), id("f"), Tok::Open(Delim::Paren), id("a"), pu(','), id("b"),
        Tok::Close(Delim::Paren), pu(','), id("aggr")];
    assert_eq!(find_entry_end(&ts, 0), 8);
    assert_eq!(find_entry_end(&ts, 9), 10);
}

#[test]
fn directive_attributes_are_sorted() {
    let attrs = vec![
        ParamAttr { path: Some("serde".to_string()), is_list: true },
        ParamAttr { path: Some("schemars".to_string()), is_list: true },
        ParamAttr { path: Some("serde".to_string()), is_list: false },
        ParamAttr { path: None, is_list: true },
    ];
    assert_eq!(
        attr_roles(&attrs),
        vec![AttrRole::Serde, AttrRole::Schemars, AttrRole::Keep, AttrRole::Keep]
    );
}

#[test]
fn text_helpers() {
    assert_eq!(trim("  \t hi there \n"), "hi there");
    assert_eq!(trim(" \u{3000} "), "");
    assert_eq!(record_type_name("get_Info2"), "__GET_INFO2ToolCallParam");
    let docs = vec!["  ".to_string(), " first ".to_string(), "".to_string(), "second".to_string()];
    assert_eq!(description_from_docs(&docs), "first\nsecond");
}

#[test]
fn unknown_key_without_value_is_unknown() {
    let attr = vec![id("title")];
    assert_eq!(FnItemAttrs::parse(&attr).err().unwrap(), AttrError::UnknownAttribute { at: 0 });
    let attr = vec![id("aggr"), pu(','), id("title"), pu(':'), st("x")];
    assert_eq!(FnItemAttrs::parse(&attr).err().unwrap(), AttrError::UnknownAttribute { at: 2 });
}

#[test]
fn unknown_marker_before_extra_tokens() {
    assert_eq!(
        ParamMarker::parse(&vec![id("foo"), id("bar")]),
        Err(AttrError::UnknownAttribute { at: 0 })
    );
    assert_eq!(
        ParamMarker::parse(&vec![id("aggr"), id("bar")]),
        Err(AttrError::Unexpected { at: 1, expected: Expected::End })
    );
}

#[test]
fn negative_number_annotation_is_invalid_literal() {
    let attr = vec![
        id("annotations"), pu('='), Tok::Open(Delim::Brace),
        id("title"), pu(':'), pu('-'), Tok::Lit("1".to_string()),
        Tok::Close(Delim::Brace),
    ];
    assert_eq!(
        FnItemAttrs::parse(&attr).err().unwrap(),
        AttrError::InvalidAnnotationLiteral { at: 3 }
    );
    let attr = vec![
        id("annotations"), pu('='), Tok::Open(Delim::Brace),
        id("title"), pu(':'), pu('-'), st("x"),
        Tok::Close(Delim::Brace),
    ];
    assert_eq!(
        FnItemAttrs::parse(&attr).err().unwrap(),
        AttrError::Unexpected { at: 5, expected: Expected::Literal }
    );
}

#[test]
fn annotation_table_alone_is_planned() {
    let attr = vec![
        id("annotations"), pu('='), Tok::Open(Delim::Brace),
        id("readOnlyHint"), pu(':'), id("true"),
        Tok::Close(Delim::Brace),
    ];
    let plan = plan_tool_fn(&attr, &decl("f", &[], vec![receiver()])).unwrap();
    assert_eq!(plan.annotations_json.unwrap(), r#"{"readOnlyHint":true}"#);
    let plan = plan_tool_fn(&vec![], &decl("f", &[], vec![receiver()])).unwrap();
    assert!(plan.annotations_json.is_none());
}
