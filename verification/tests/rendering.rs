use near_bindgen_core::model::ArgInfo;
use near_bindgen_core::model::AttrSigInfo;
use near_bindgen_core::model::BindgenArgType;
use near_bindgen_core::model::Mutability;
use near_bindgen_core::model::ReferenceForm;
use near_bindgen_core::model::SerializerType;
use near_bindgen_core::render::render_arg_list;
use near_bindgen_core::render::render_callback_reads;
use near_bindgen_core::render::render_callback_vec_reads;
use near_bindgen_core::render::render_decomposition_pattern;
use near_bindgen_core::render::render_input_struct;

fn arg(
    ident: &str,
    ty: &str,
    mutability: Mutability,
    reference: ReferenceForm,
    bindgen_ty: BindgenArgType,
    serializer_ty: SerializerType,
) -> ArgInfo {
    ArgInfo {
        ident: ident.to_string(),
        ty: ty.to_string(),
        mutability,
        reference,
        bindgen_ty,
        serializer_ty,
    }
}

fn regular(ident: &str, ty: &str) -> ArgInfo {
    arg(
        ident,
        ty,
        Mutability::Immutable,
        ReferenceForm::Value,
        BindgenArgType::Regular,
        SerializerType::JSON,
    )
}

#[test]
fn input_struct_text_lists_fields_in_order() {
    let sig = AttrSigInfo {
        args: vec![regular("a", "u64"), regular("b", "String")],
        input_serializer: SerializerType::JSON,
    };
    let record = sig.input_struct().unwrap();
    let text = render_input_struct(&record);
    assert_eq!(
        text,
        "#[derive(serde::Deserialize)]\nstruct Input {\n    a: u64,\n    b: String,\n}\n"
    );
}

#[test]
fn input_struct_text_uses_binary_attribute() {
    let sig = AttrSigInfo {
        args: vec![regular("a", "u64")],
        input_serializer: SerializerType::Borsh,
    };
    let record = sig.input_struct().unwrap();
    let text = render_input_struct(&record);
    assert_eq!(text, "#[derive(borsh::BorshDeserialize)]\nstruct Input {\n    a: u64,\n}\n");
}

#[test]
fn pattern_text_marks_mutable_bindings() {
    let sig = AttrSigInfo {
        args: vec![
            regular("arg0", "u64"),
            arg(
                "arg1",
                "String",
                Mutability::Mutable,
                ReferenceForm::Value,
                BindgenArgType::Regular,
                SerializerType::JSON,
            ),
            regular("arg2", "bool"),
        ],
        input_serializer: SerializerType::JSON,
    };
    let pattern = sig.decomposition_pattern().unwrap();
    let text = render_decomposition_pattern(&pattern);
    assert_eq!(text, "Input { arg0, mut arg1, arg2, }");
}

#[test]
fn arg_list_text_applies_reference_modifiers() {
    let sig = AttrSigInfo {
        args: vec![
            arg(
                "a",
                "u64",
                Mutability::Mutable,
                ReferenceForm::Value,
                BindgenArgType::Regular,
                SerializerType::JSON,
            ),
            arg(
                "b",
                "String",
                Mutability::Immutable,
                ReferenceForm::Borrowed,
                BindgenArgType::Regular,
                SerializerType::JSON,
            ),
            arg(
                "c",
                "Vec<u8>",
                Mutability::Mutable,
                ReferenceForm::BorrowedMut,
                BindgenArgType::Regular,
                SerializerType::JSON,
            ),
        ],
        input_serializer: SerializerType::JSON,
    };
    let text = render_arg_list(&sig.arg_list());
    assert_eq!(text, "a, &b, &mut c, ");
}

#[test]
fn empty_arg_list_renders_empty_text() {
    let sig = AttrSigInfo { args: vec![], input_serializer: SerializerType::JSON };
    assert_eq!(render_arg_list(&sig.arg_list()), "");
    assert_eq!(render_callback_reads(&sig.callback_deserialization()), "");
    assert_eq!(render_callback_vec_reads(&sig.callback_vec_deserialization()), "");
}

#[test]
fn scalar_read_text_fetches_its_index_and_decodes_binary() {
    let sig = AttrSigInfo {
        args: vec![
            regular("a", "u64"),
            regular("b", "String"),
            arg(
                "c",
                "Vec<u8>",
                Mutability::Immutable,
                ReferenceForm::Value,
                BindgenArgType::CallbackArg,
                SerializerType::Borsh,
            ),
        ],
        input_serializer: SerializerType::JSON,
    };
    let text = render_callback_reads(&sig.callback_deserialization());
    let expected = "let data: Vec<u8> = match near_bindgen::env::promise_result(0) {\n    near_bindgen::PromiseResult::Successful(x) => x,\n    _ => panic!(\"Callback computation {} was not successful\", 0)\n};\nlet c: Vec<u8> = borsh::Deserialize::try_from_slice(&data).expect(\"Failed to deserialize callback using JSON\");\n";
    assert_eq!(text, expected);
}

#[test]
fn scalar_read_text_renders_two_digit_indices() {
    let mut args = Vec::new();
    for i in 0..12 {
        args.push(arg(
            &format!("cb{}", i),
            "u64",
            Mutability::Immutable,
            ReferenceForm::Value,
            BindgenArgType::CallbackArg,
            SerializerType::JSON,
        ));
    }
    let sig = AttrSigInfo { args, input_serializer: SerializerType::JSON };
    let text = render_callback_reads(&sig.callback_deserialization());
    assert!(text.contains("near_bindgen::env::promise_result(10)"));
    assert!(text.contains("near_bindgen::env::promise_result(11)"));
    assert!(text.contains("was not successful\", 11)"));
}

#[test]
fn vector_read_text_loops_over_runtime_count() {
    let sig = AttrSigInfo {
        args: vec![arg(
            "items",
            "Vec<u64>",
            Mutability::Immutable,
            ReferenceForm::Value,
            BindgenArgType::CallbackArgVec,
            SerializerType::JSON,
        )],
        input_serializer: SerializerType::JSON,
    };
    let text = render_callback_vec_reads(&sig.callback_vec_deserialization());
    let expected = "let items: Vec<u64> = (0..near_bindgen::env::promise_results_count()).map(|i| {\n    let data: Vec<u8> = match near_bindgen::env::promise_result(i) {\n        near_bindgen::PromiseResult::Successful(x) => x,\n        _ => panic!(\"Callback computation {} was not successful\", i)\n    };\n    serde_json::from_slice(&data).expect(\"Failed to deserialize callback using JSON\")\n}).collect();\n";
    assert_eq!(text, expected);
    assert!(text.contains("(0..near_bindgen::env::promise_results_count())"));
}

#[test]
fn regeneration_renders_identical_text() {
    let sig = AttrSigInfo {
        args: vec![arg(
            "items",
            "Vec<String>",
            Mutability::Mutable,
            ReferenceForm::Value,
            BindgenArgType::CallbackArgVec,
            SerializerType::Borsh,
        )],
        input_serializer: SerializerType::JSON,
    };
    let first = render_callback_vec_reads(&sig.callback_vec_deserialization());
    let second = render_callback_vec_reads(&sig.callback_vec_deserialization());
    assert_eq!(first, second);
    assert!(first.starts_with("let mut items: Vec<String> = (0.."));
}
