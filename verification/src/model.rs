//! The signature model: an immutable description of one entry point's
//! arguments, their kinds, mutability, reference form and serialization
//! format, together with the spec-level view of that description and the
//! subsequences (ordinary arguments, scalar callbacks, vector callbacks)
//! that the generation operations work on.

use vstd::prelude::*;

verus! {

/// Which wire format decodes a value: attribute-driven structured text
/// (`JSON`) or the compact binary codec (`Borsh`).
#[derive(Clone, Copy, PartialEq, Eq, Structural, Debug)]
pub enum SerializerType {
    JSON,
    Borsh,
}

/// Where an argument's value comes from: directly from the call input
/// (`Regular`), from one indexed asynchronous sub-call result
/// (`CallbackArg`), or from the whole result table (`CallbackArgVec`).
#[derive(Clone, Copy, PartialEq, Eq, Structural, Debug)]
pub enum BindgenArgType {
    Regular,
    CallbackArg,
    CallbackArgVec,
}

/// Whether the reconstructed binding for an argument is declared mutable.
#[derive(Clone, Copy, PartialEq, Eq, Structural, Debug)]
pub enum Mutability {
    Immutable,
    Mutable,
}

/// How an argument is passed at the call site: by value, by shared
/// borrow, or by mutable borrow.
#[derive(Clone, Copy, PartialEq, Eq, Structural, Debug)]
pub enum ReferenceForm {
    Value,
    Borrowed,
    BorrowedMut,
}

/// One declared argument of an entry point. `ident` is used verbatim in
/// every generated binding; `ty` is the declared type expression, opaque
/// to the generator and copied through unchanged.
pub struct ArgInfo {
    pub ident: String,
    pub ty: String,
    pub mutability: Mutability,
    pub reference: ReferenceForm,
    pub bindgen_ty: BindgenArgType,
    pub serializer_ty: SerializerType,
}

/// Spec-level image of one argument.
#[verifier::ext_equal]
pub ghost struct ArgSpec {
    pub ident: Seq<char>,
    pub ty: Seq<char>,
    pub mutability: Mutability,
    pub reference: ReferenceForm,
    pub bindgen_ty: BindgenArgType,
    pub serializer_ty: SerializerType,
}

impl View for ArgInfo {
    type V = ArgSpec;

    open spec fn view(&self) -> ArgSpec {
        ArgSpec {
            ident: self.ident@,
            ty: self.ty@,
            mutability: self.mutability,
            reference: self.reference,
            bindgen_ty: self.bindgen_ty,
            serializer_ty: self.serializer_ty,
        }
    }
}

/// The views of a sequence of arguments, in order.
pub open spec fn arg_views(v: Seq<ArgInfo>) -> Seq<ArgSpec> {
    v.map_values(|a: ArgInfo| a@)
}

/// The full description of one entry point's argument list: the arguments
/// in declaration order, and the format that decodes the aggregate record
/// built from the `Regular` arguments.
pub struct AttrSigInfo {
    pub args: Vec<ArgInfo>,
    pub input_serializer: SerializerType,
}

/// Spec-level image of a signature.
#[verifier::ext_equal]
pub ghost struct SigSpec {
    pub args: Seq<ArgSpec>,
    pub input_serializer: SerializerType,
}

impl View for AttrSigInfo {
    type V = SigSpec;

    open spec fn view(&self) -> SigSpec {
        SigSpec { args: arg_views(self.args@), input_serializer: self.input_serializer }
    }
}

/// The `Regular` arguments, keeping declaration order.
pub open spec fn regular_args(args: Seq<ArgSpec>) -> Seq<ArgSpec>
    decreases args.len(),
{
    if args.len() == 0 {
        Seq::empty()
    } else {
        let rest = regular_args(args.drop_last());
        if args.last().bindgen_ty is Regular {
            rest.push(args.last())
        } else {
            rest
        }
    }
}

/// The scalar-callback arguments, keeping declaration order.
pub open spec fn callback_args(args: Seq<ArgSpec>) -> Seq<ArgSpec>
    decreases args.len(),
{
    if args.len() == 0 {
        Seq::empty()
    } else {
        let rest = callback_args(args.drop_last());
        if args.last().bindgen_ty is CallbackArg {
            rest.push(args.last())
        } else {
            rest
        }
    }
}

/// The vector-callback arguments, keeping declaration order.
pub open spec fn callback_vec_args(args: Seq<ArgSpec>) -> Seq<ArgSpec>
    decreases args.len(),
{
    if args.len() == 0 {
        Seq::empty()
    } else {
        let rest = callback_vec_args(args.drop_last());
        if args.last().bindgen_ty is CallbackArgVec {
            rest.push(args.last())
        } else {
            rest
        }
    }
}

/// Extending a prefix by one argument extends its `Regular` subsequence
/// exactly when that argument is `Regular`.
pub proof fn lemma_regular_args_take_step(args: Seq<ArgSpec>, i: int)
    requires
        0 <= i < args.len(),
    ensures
        regular_args(args.take(i + 1)) == (if args[i].bindgen_ty is Regular {
            regular_args(args.take(i)).push(args[i])
        } else {
            regular_args(args.take(i))
        }),
{
    let t = args.take(i + 1);
    assert(t.drop_last() =~= args.take(i));
    assert(t.last() == args[i]);
}

/// Extending a prefix by one argument extends its scalar-callback
/// subsequence exactly when that argument is a scalar callback.
pub proof fn lemma_callback_args_take_step(args: Seq<ArgSpec>, i: int)
    requires
        0 <= i < args.len(),
    ensures
        callback_args(args.take(i + 1)) == (if args[i].bindgen_ty is CallbackArg {
            callback_args(args.take(i)).push(args[i])
        } else {
            callback_args(args.take(i))
        }),
{
    let t = args.take(i + 1);
    assert(t.drop_last() =~= args.take(i));
    assert(t.last() == args[i]);
}

/// Extending a prefix by one argument extends its vector-callback
/// subsequence exactly when that argument is a vector callback.
pub proof fn lemma_callback_vec_args_take_step(args: Seq<ArgSpec>, i: int)
    requires
        0 <= i < args.len(),
    ensures
        callback_vec_args(args.take(i + 1)) == (if args[i].bindgen_ty is CallbackArgVec {
            callback_vec_args(args.take(i)).push(args[i])
        } else {
            callback_vec_args(args.take(i))
        }),
{
    let t = args.take(i + 1);
    assert(t.drop_last() =~= args.take(i));
    assert(t.last() == args[i]);
}

} // verus!
