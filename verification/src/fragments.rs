//! The code fragments that generation returns: the input record type, the
//! decomposition pattern, the call-site expression list, and the two kinds
//! of callback-read blocks, each as plain data with a spec-level view, and
//! the spec functions that say exactly which fragment a signature yields.

use vstd::prelude::*;

use crate::model::ArgSpec;
use crate::model::Mutability;
use crate::model::ReferenceForm;
use crate::model::SerializerType;
use crate::model::SigSpec;
use crate::model::callback_args;
use crate::model::callback_vec_args;
use crate::model::regular_args;

verus! {

/// The one generation-time error: the input record type and the
/// decomposition pattern are only defined when at least one `Regular`
/// argument exists.
#[derive(Clone, Copy, PartialEq, Eq, Structural, Debug)]
pub enum GenError {
    NoInputArgs,
}

/// One field of the input record type: the argument's name and its
/// declared type expression, copied through unchanged.
#[derive(PartialEq, Eq, Debug)]
pub struct Field {
    pub ident: String,
    pub ty: String,
}

/// Spec-level image of one record field.
#[verifier::ext_equal]
pub ghost struct FieldSpec {
    pub ident: Seq<char>,
    pub ty: Seq<char>,
}

impl View for Field {
    type V = FieldSpec;

    open spec fn view(&self) -> FieldSpec {
        FieldSpec { ident: self.ident@, ty: self.ty@ }
    }
}

/// The record type holding exactly the `Regular` arguments, annotated for
/// the signature's input format.
#[derive(PartialEq, Eq, Debug)]
pub struct InputStruct {
    pub serializer: SerializerType,
    pub fields: Vec<Field>,
}

/// Spec-level image of the input record type.
#[verifier::ext_equal]
pub ghost struct InputStructSpec {
    pub serializer: SerializerType,
    pub fields: Seq<FieldSpec>,
}

impl View for InputStruct {
    type V = InputStructSpec;

    open spec fn view(&self) -> InputStructSpec {
        InputStructSpec { serializer: self.serializer, fields: field_views(self.fields@) }
    }
}

/// One binding of the decomposition pattern: the argument's name, marked
/// mutable exactly when the argument was declared mutable.
#[derive(PartialEq, Eq, Debug)]
pub struct Binding {
    pub mutability: Mutability,
    pub ident: String,
}

/// Spec-level image of one pattern binding.
#[verifier::ext_equal]
pub ghost struct BindingSpec {
    pub mutability: Mutability,
    pub ident: Seq<char>,
}

impl View for Binding {
    type V = BindingSpec;

    open spec fn view(&self) -> BindingSpec {
        BindingSpec { mutability: self.mutability, ident: self.ident@ }
    }
}

/// The pattern that destructures the input record back into individually
/// named bindings, one per field, in field order.
#[derive(PartialEq, Eq, Debug)]
pub struct DecompositionPattern {
    pub bindings: Vec<Binding>,
}

/// Spec-level image of the decomposition pattern.
#[verifier::ext_equal]
pub ghost struct DecompositionPatternSpec {
    pub bindings: Seq<BindingSpec>,
}

impl View for DecompositionPattern {
    type V = DecompositionPatternSpec;

    open spec fn view(&self) -> DecompositionPatternSpec {
        DecompositionPatternSpec { bindings: binding_views(self.bindings@) }
    }
}

/// One call-site expression: the argument's identifier together with its
/// reference-form modifier. The declared mutability rides along as data
/// about how the identifier was bound upstream; it is no part of the
/// call expression itself.
#[derive(PartialEq, Eq, Debug)]
pub struct ArgExpr {
    pub reference: ReferenceForm,
    pub mutability: Mutability,
    pub ident: String,
}

/// Spec-level image of one call-site expression.
#[verifier::ext_equal]
pub ghost struct ArgExprSpec {
    pub reference: ReferenceForm,
    pub mutability: Mutability,
    pub ident: Seq<char>,
}

impl View for ArgExpr {
    type V = ArgExprSpec;

    open spec fn view(&self) -> ArgExprSpec {
        ArgExprSpec { reference: self.reference, mutability: self.mutability, ident: self.ident@ }
    }
}

/// One scalar-callback read: fetch host result number `index`, decode it
/// with `serializer`, and bind the value to `ident` with `mutability`.
#[derive(PartialEq, Eq, Debug)]
pub struct CallbackRead {
    pub index: usize,
    pub serializer: SerializerType,
    pub mutability: Mutability,
    pub ident: String,
    pub ty: String,
}

/// Spec-level image of one scalar-callback read.
#[verifier::ext_equal]
pub ghost struct CallbackReadSpec {
    pub index: int,
    pub serializer: SerializerType,
    pub mutability: Mutability,
    pub ident: Seq<char>,
    pub ty: Seq<char>,
}

impl View for CallbackRead {
    type V = CallbackReadSpec;

    open spec fn view(&self) -> CallbackReadSpec {
        CallbackReadSpec {
            index: self.index as int,
            serializer: self.serializer,
            mutability: self.mutability,
            ident: self.ident@,
            ty: self.ty@,
        }
    }
}

/// One vector-callback read: loop over every host result, decode each
/// with `serializer`, and collect into a sequence bound to `ident`. The
/// fragment holds no result count: the count is queried at run time.
#[derive(PartialEq, Eq, Debug)]
pub struct CallbackVecRead {
    pub serializer: SerializerType,
    pub mutability: Mutability,
    pub ident: String,
    pub ty: String,
}

/// Spec-level image of one vector-callback read.
#[verifier::ext_equal]
pub ghost struct CallbackVecReadSpec {
    pub serializer: SerializerType,
    pub mutability: Mutability,
    pub ident: Seq<char>,
    pub ty: Seq<char>,
}

impl View for CallbackVecRead {
    type V = CallbackVecReadSpec;

    open spec fn view(&self) -> CallbackVecReadSpec {
        CallbackVecReadSpec {
            serializer: self.serializer,
            mutability: self.mutability,
            ident: self.ident@,
            ty: self.ty@,
        }
    }
}

/// The views of a sequence of fields, in order.
pub open spec fn field_views(v: Seq<Field>) -> Seq<FieldSpec> {
    v.map_values(|f: Field| f@)
}

/// The views of a sequence of bindings, in order.
pub open spec fn binding_views(v: Seq<Binding>) -> Seq<BindingSpec> {
    v.map_values(|b: Binding| b@)
}

/// The views of a sequence of call-site expressions, in order.
pub open spec fn expr_views(v: Seq<ArgExpr>) -> Seq<ArgExprSpec> {
    v.map_values(|e: ArgExpr| e@)
}

/// The views of a sequence of scalar-callback reads, in order.
pub open spec fn read_views(v: Seq<CallbackRead>) -> Seq<CallbackReadSpec> {
    v.map_values(|r: CallbackRead| r@)
}

/// The views of a sequence of vector-callback reads, in order.
pub open spec fn vec_read_views(v: Seq<CallbackVecRead>) -> Seq<CallbackVecReadSpec> {
    v.map_values(|r: CallbackVecRead| r@)
}

/// The record field an argument contributes.
pub open spec fn field_of(a: ArgSpec) -> FieldSpec {
    FieldSpec { ident: a.ident, ty: a.ty }
}

/// The pattern binding an argument contributes.
pub open spec fn binding_of(a: ArgSpec) -> BindingSpec {
    BindingSpec { mutability: a.mutability, ident: a.ident }
}

/// The call-site expression an argument contributes.
pub open spec fn expr_of(a: ArgSpec) -> ArgExprSpec {
    ArgExprSpec { reference: a.reference, mutability: a.mutability, ident: a.ident }
}

/// The scalar-callback read an argument contributes when it stands at
/// 0-based rank `i` among the scalar-callback arguments.
pub open spec fn read_of(i: int, a: ArgSpec) -> CallbackReadSpec {
    CallbackReadSpec {
        index: i,
        serializer: a.serializer_ty,
        mutability: a.mutability,
        ident: a.ident,
        ty: a.ty,
    }
}

/// The vector-callback read an argument contributes.
pub open spec fn vec_read_of(a: ArgSpec) -> CallbackVecReadSpec {
    CallbackVecReadSpec {
        serializer: a.serializer_ty,
        mutability: a.mutability,
        ident: a.ident,
        ty: a.ty,
    }
}

/// The fields of the input record type: one per `Regular` argument, in
/// declaration order.
pub open spec fn field_specs(args: Seq<ArgSpec>) -> Seq<FieldSpec> {
    regular_args(args).map_values(|a: ArgSpec| field_of(a))
}

/// The input record type a signature yields.
pub open spec fn input_struct_spec(s: SigSpec) -> InputStructSpec {
    InputStructSpec { serializer: s.input_serializer, fields: field_specs(s.args) }
}

/// The pattern bindings: one per `Regular` argument, in declaration
/// order, each carrying its argument's declared mutability.
pub open spec fn binding_specs(args: Seq<ArgSpec>) -> Seq<BindingSpec> {
    regular_args(args).map_values(|a: ArgSpec| binding_of(a))
}

/// The decomposition pattern a signature yields.
pub open spec fn decomposition_pattern_spec(s: SigSpec) -> DecompositionPatternSpec {
    DecompositionPatternSpec { bindings: binding_specs(s.args) }
}

/// The call-site expression list: one expression per argument, whatever
/// its kind, in declaration order.
pub open spec fn arg_exprs(args: Seq<ArgSpec>) -> Seq<ArgExprSpec> {
    args.map_values(|a: ArgSpec| expr_of(a))
}

/// The reads for a sequence of scalar-callback arguments: the read at
/// position `i` fetches host result `i`.
pub open spec fn reads_of_callbacks(cbs: Seq<ArgSpec>) -> Seq<CallbackReadSpec> {
    cbs.map(|i: int, a: ArgSpec| read_of(i, a))
}

/// The scalar-callback reads: one per scalar-callback argument, in
/// subsequence order, the fetch index being the 0-based rank of the
/// argument within that subsequence alone.
pub open spec fn scalar_reads(args: Seq<ArgSpec>) -> Seq<CallbackReadSpec> {
    reads_of_callbacks(callback_args(args))
}

/// The reads for a sequence of vector-callback arguments.
pub open spec fn vec_reads_of(cbs: Seq<ArgSpec>) -> Seq<CallbackVecReadSpec> {
    cbs.map_values(|a: ArgSpec| vec_read_of(a))
}

/// The vector-callback reads: one per vector-callback argument, in
/// subsequence order.
pub open spec fn vec_reads(args: Seq<ArgSpec>) -> Seq<CallbackVecReadSpec> {
    vec_reads_of(callback_vec_args(args))
}

/// Appending an expression distributes over taking views.
pub proof fn lemma_expr_views_push(v: Seq<ArgExpr>, x: ArgExpr)
    ensures
        expr_views(v.push(x)) == expr_views(v).push(x@),
{
    assert(expr_views(v.push(x)) =~~= expr_views(v).push(x@));
}

/// Appending a scalar read distributes over taking views.
pub proof fn lemma_read_views_push(v: Seq<CallbackRead>, x: CallbackRead)
    ensures
        read_views(v.push(x)) == read_views(v).push(x@),
{
    assert(read_views(v.push(x)) =~~= read_views(v).push(x@));
}

/// Appending a vector read distributes over taking views.
pub proof fn lemma_vec_read_views_push(v: Seq<CallbackVecRead>, x: CallbackVecRead)
    ensures
        vec_read_views(v.push(x)) == vec_read_views(v).push(x@),
{
    assert(vec_read_views(v.push(x)) =~~= vec_read_views(v).push(x@));
}

/// Appending an argument appends its call-site expression.
pub proof fn lemma_arg_exprs_push(s: Seq<ArgSpec>, x: ArgSpec)
    ensures
        arg_exprs(s.push(x)) == arg_exprs(s).push(expr_of(x)),
{
    assert(arg_exprs(s.push(x)) =~~= arg_exprs(s).push(expr_of(x)));
}

/// Appending a scalar-callback argument appends the read of the next
/// free index.
pub proof fn lemma_reads_of_callbacks_push(cbs: Seq<ArgSpec>, x: ArgSpec)
    ensures
        reads_of_callbacks(cbs.push(x)) == reads_of_callbacks(cbs).push(
            read_of(cbs.len() as int, x),
        ),
{
    assert(reads_of_callbacks(cbs.push(x)) =~~= reads_of_callbacks(cbs).push(
        read_of(cbs.len() as int, x),
    ));
}

/// Appending a vector-callback argument appends its read.
pub proof fn lemma_vec_reads_of_push(cbs: Seq<ArgSpec>, x: ArgSpec)
    ensures
        vec_reads_of(cbs.push(x)) == vec_reads_of(cbs).push(vec_read_of(x)),
{
    assert(vec_reads_of(cbs.push(x)) =~~= vec_reads_of(cbs).push(vec_read_of(x)));
}

} // verus!
