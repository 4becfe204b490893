use near_bindgen_core::model::ArgInfo;
use near_bindgen_core::model::AttrSigInfo;
use near_bindgen_core::model::BindgenArgType;
use near_bindgen_core::model::Mutability;
use near_bindgen_core::model::ReferenceForm;
use near_bindgen_core::model::SerializerType;
use near_bindgen_core::fragments::GenError;

fn arg(
    ident: &str,
    ty: &str,
    mutability: Mutability,
    reference: ReferenceForm,
    bindgen_ty: BindgenArgType,
    serializer_ty: SerializerType,
) -> ArgInfo {
    ArgInfo {
        ident: ident.to_string(),
        ty: ty.to_string(),
        mutability,
        reference,
        bindgen_ty,
        serializer_ty,
    }
}

fn regular(ident: &str, ty: &str) -> ArgInfo {
    arg(
        ident,
        ty,
        Mutability::Immutable,
        ReferenceForm::Value,
        BindgenArgType::Regular,
        SerializerType::JSON,
    )
}

fn scalar_callback(ident: &str, ty: &str, serializer: SerializerType) -> ArgInfo {
    arg(
        ident,
        ty,
        Mutability::Immutable,
        ReferenceForm::Value,
        BindgenArgType::CallbackArg,
        serializer,
    )
}

fn vector_callback(ident: &str, ty: &str, serializer: SerializerType) -> ArgInfo {
    arg(
        ident,
        ty,
        Mutability::Immutable,
        ReferenceForm::Value,
        BindgenArgType::CallbackArgVec,
        serializer,
    )
}

#[test]
fn round_trip_input_struct_and_pattern() {
    let sig = AttrSigInfo {
        args: vec![regular("a", "u64"), regular("b", "String")],
        input_serializer: SerializerType::JSON,
    };
    let record = sig.input_struct().unwrap();
    assert_eq!(record.serializer, SerializerType::JSON);
    assert_eq!(record.fields.len(), 2);
    assert_eq!(record.fields[0].ident, "a");
    assert_eq!(record.fields[0].ty, "u64");
    assert_eq!(record.fields[1].ident, "b");
    assert_eq!(record.fields[1].ty, "String");

    let pattern = sig.decomposition_pattern().unwrap();
    assert_eq!(pattern.bindings.len(), 2);
    assert_eq!(pattern.bindings[0].ident, "a");
    assert_eq!(pattern.bindings[0].mutability, Mutability::Immutable);
    assert_eq!(pattern.bindings[1].ident, "b");
    assert_eq!(pattern.bindings[1].mutability, Mutability::Immutable);
}

#[test]
fn fields_and_bindings_agree_with_mixed_kinds() {
    let sig = AttrSigInfo {
        args: vec![
            arg(
                "x",
                "u32",
                Mutability::Mutable,
                ReferenceForm::Value,
                BindgenArgType::Regular,
                SerializerType::JSON,
            ),
            scalar_callback("cb", "u8", SerializerType::JSON),
            regular("y", "bool"),
        ],
        input_serializer: SerializerType::Borsh,
    };
    let record = sig.input_struct().unwrap();
    let pattern = sig.decomposition_pattern().unwrap();
    assert_eq!(record.fields.len(), 2);
    assert_eq!(pattern.bindings.len(), 2);
    assert_eq!(record.fields[0].ident, pattern.bindings[0].ident);
    assert_eq!(record.fields[1].ident, pattern.bindings[1].ident);
    assert_eq!(pattern.bindings[0].mutability, Mutability::Mutable);
    assert_eq!(pattern.bindings[1].mutability, Mutability::Immutable);
    assert_eq!(record.serializer, SerializerType::Borsh);
}

#[test]
fn input_struct_fails_without_regular_args() {
    let empty = AttrSigInfo { args: vec![], input_serializer: SerializerType::JSON };
    assert!(matches!(empty.input_struct(), Err(GenError::NoInputArgs)));
    assert!(matches!(empty.decomposition_pattern(), Err(GenError::NoInputArgs)));

    let callbacks_only = AttrSigInfo {
        args: vec![
            scalar_callback("c", "u64", SerializerType::Borsh),
            vector_callback("v", "Vec<u8>", SerializerType::JSON),
        ],
        input_serializer: SerializerType::JSON,
    };
    assert!(matches!(callbacks_only.input_struct(), Err(GenError::NoInputArgs)));
    assert!(matches!(callbacks_only.decomposition_pattern(), Err(GenError::NoInputArgs)));
}

#[test]
fn arg_list_covers_every_argument_in_order() {
    let sig = AttrSigInfo {
        args: vec![
            regular("a", "u64"),
            arg(
                "b",
                "String",
                Mutability::Immutable,
                ReferenceForm::Borrowed,
                BindgenArgType::Regular,
                SerializerType::JSON,
            ),
            scalar_callback("c", "Vec<u8>", SerializerType::Borsh),
        ],
        input_serializer: SerializerType::JSON,
    };
    let exprs = sig.arg_list();
    assert_eq!(exprs.len(), 3);
    assert_eq!(exprs[0].ident, "a");
    assert_eq!(exprs[0].reference, ReferenceForm::Value);
    assert_eq!(exprs[1].ident, "b");
    assert_eq!(exprs[1].reference, ReferenceForm::Borrowed);
    assert_eq!(exprs[2].ident, "c");
    assert_eq!(exprs[2].reference, ReferenceForm::Value);
}

#[test]
fn empty_signature_yields_empty_arg_list() {
    let sig = AttrSigInfo { args: vec![], input_serializer: SerializerType::JSON };
    assert_eq!(sig.arg_list().len(), 0);
    assert_eq!(sig.callback_deserialization().len(), 0);
    assert_eq!(sig.callback_vec_deserialization().len(), 0);
}

#[test]
fn single_scalar_callback_reads_index_zero() {
    let sig = AttrSigInfo {
        args: vec![
            regular("a", "u64"),
            regular("b", "String"),
            scalar_callback("c", "Vec<u8>", SerializerType::Borsh),
        ],
        input_serializer: SerializerType::JSON,
    };
    let reads = sig.callback_deserialization();
    assert_eq!(reads.len(), 1);
    assert_eq!(reads[0].index, 0);
    assert_eq!(reads[0].serializer, SerializerType::Borsh);
    assert_eq!(reads[0].ident, "c");
    assert_eq!(reads[0].ty, "Vec<u8>");
}

#[test]
fn callback_index_is_rank_within_subsequence() {
    let sig = AttrSigInfo {
        args: vec![
            regular("a", "u64"),
            scalar_callback("b", "u8", SerializerType::JSON),
            regular("c", "bool"),
            scalar_callback("d", "u16", SerializerType::Borsh),
        ],
        input_serializer: SerializerType::JSON,
    };
    let reads = sig.callback_deserialization();
    assert_eq!(reads.len(), 2);
    assert_eq!(reads[0].ident, "b");
    assert_eq!(reads[0].index, 0);
    assert_eq!(reads[1].ident, "d");
    assert_eq!(reads[1].index, 1);
}

#[test]
fn many_scalar_callbacks_get_consecutive_indices() {
    let mut args = Vec::new();
    for i in 0..12 {
        args.push(scalar_callback(&format!("cb{}", i), "u64", SerializerType::JSON));
    }
    let sig = AttrSigInfo { args, input_serializer: SerializerType::JSON };
    let reads = sig.callback_deserialization();
    assert_eq!(reads.len(), 12);
    for (i, read) in reads.iter().enumerate() {
        assert_eq!(read.index, i);
        assert_eq!(read.ident, format!("cb{}", i));
    }
}

#[test]
fn vector_callback_collects_into_binding() {
    let sig = AttrSigInfo {
        args: vec![vector_callback("items", "Vec<u64>", SerializerType::JSON)],
        input_serializer: SerializerType::JSON,
    };
    let reads = sig.callback_vec_deserialization();
    assert_eq!(reads.len(), 1);
    assert_eq!(reads[0].ident, "items");
    assert_eq!(reads[0].ty, "Vec<u64>");
    assert_eq!(reads[0].serializer, SerializerType::JSON);
    assert_eq!(reads[0].mutability, Mutability::Immutable);
}

#[test]
fn regeneration_yields_identical_fragments() {
    let sig = AttrSigInfo {
        args: vec![
            regular("a", "u64"),
            scalar_callback("c", "u8", SerializerType::Borsh),
            vector_callback("items", "Vec<String>", SerializerType::JSON),
        ],
        input_serializer: SerializerType::JSON,
    };
    assert_eq!(sig.input_struct().unwrap(), sig.input_struct().unwrap());
    assert_eq!(sig.decomposition_pattern().unwrap(), sig.decomposition_pattern().unwrap());
    assert_eq!(sig.arg_list(), sig.arg_list());
    assert_eq!(sig.callback_deserialization(), sig.callback_deserialization());
    assert_eq!(sig.callback_vec_deserialization(), sig.callback_vec_deserialization());
}
