//! The five generation operations. Each is a pure function of the
//! signature description: it returns the fragment that the description
//! determines, pinned exactly by the spec functions of `fragments`.

use vstd::prelude::*;

use crate::model::ArgInfo;
use crate::model::AttrSigInfo;
use crate::model::BindgenArgType;
use crate::model::arg_views;
use crate::model::callback_args;
use crate::model::callback_vec_args;
use crate::model::lemma_callback_args_take_step;
use crate::model::lemma_callback_vec_args_take_step;
use crate::model::lemma_regular_args_take_step;
use crate::model::regular_args;
use crate::fragments::ArgExpr;
use crate::fragments::Binding;
use crate::fragments::CallbackRead;
use crate::fragments::CallbackVecRead;
use crate::fragments::DecompositionPattern;
use crate::fragments::Field;
use crate::fragments::GenError;
use crate::fragments::InputStruct;
use crate::fragments::arg_exprs;
use crate::fragments::binding_of;
use crate::fragments::binding_views;
use crate::fragments::binding_specs;
use crate::fragments::expr_of;
use crate::fragments::read_of;
use crate::fragments::vec_read_of;
use crate::fragments::decomposition_pattern_spec;
use crate::fragments::expr_views;
use crate::fragments::field_of;
use crate::fragments::field_specs;
use crate::fragments::field_views;
use crate::fragments::input_struct_spec;
use crate::fragments::lemma_arg_exprs_push;
use crate::fragments::lemma_expr_views_push;
use crate::fragments::lemma_read_views_push;
use crate::fragments::lemma_reads_of_callbacks_push;
use crate::fragments::lemma_vec_read_views_push;
use crate::fragments::lemma_vec_reads_of_push;
use crate::fragments::read_views;
use crate::fragments::scalar_reads;
use crate::fragments::vec_read_views;
use crate::fragments::vec_reads;

verus! {

/// A copy of one argument description.
fn copy_arg(a: &ArgInfo) -> (r: ArgInfo)
    ensures
        r@ == a@,
{
    ArgInfo {
        ident: a.ident.clone(),
        ty: a.ty.clone(),
        mutability: a.mutability,
        reference: a.reference,
        bindgen_ty: a.bindgen_ty,
        serializer_ty: a.serializer_ty,
    }
}

/// The record field for one argument.
fn make_field(a: &ArgInfo) -> (f: Field)
    ensures
        f@ == field_of(a@),
{
    Field { ident: a.ident.clone(), ty: a.ty.clone() }
}

/// The pattern binding for one argument.
fn make_binding(a: &ArgInfo) -> (b: Binding)
    ensures
        b@ == binding_of(a@),
{
    Binding { mutability: a.mutability, ident: a.ident.clone() }
}

/// The call-site expression for one argument.
fn make_expr(a: &ArgInfo) -> (e: ArgExpr)
    ensures
        e@ == expr_of(a@),
{
    ArgExpr { reference: a.reference, mutability: a.mutability, ident: a.ident.clone() }
}

/// The scalar-callback read for one argument at rank `idx` among the
/// scalar-callback arguments.
fn make_read(idx: usize, a: &ArgInfo) -> (r: CallbackRead)
    ensures
        r@ == read_of(idx as int, a@),
{
    CallbackRead {
        index: idx,
        serializer: a.serializer_ty,
        mutability: a.mutability,
        ident: a.ident.clone(),
        ty: a.ty.clone(),
    }
}

/// The vector-callback read for one argument.
fn make_vec_read(a: &ArgInfo) -> (r: CallbackVecRead)
    ensures
        r@ == vec_read_of(a@),
{
    CallbackVecRead {
        serializer: a.serializer_ty,
        mutability: a.mutability,
        ident: a.ident.clone(),
        ty: a.ty.clone(),
    }
}

impl AttrSigInfo {
    /// The `Regular` arguments of this signature, in declaration order:
    /// the ones populated directly from the call's input payload.
    pub fn input_args(&self) -> (r: Vec<ArgInfo>)
        ensures
            arg_views(r@) == regular_args(self@.args),
    {
        let mut out: Vec<ArgInfo> = Vec::new();
        let mut i: usize = 0;
        proof {
            assert(arg_views(out@) =~~= regular_args(self@.args.take(0)));
        }
        while i < self.args.len()
            invariant
                i <= self.args.len(),
                self.args@.len() == self@.args.len(),
                arg_views(out@) == regular_args(self@.args.take(i as int)),
            decreases self.args.len() - i,
        {
            let a = &self.args[i];
            if matches!(a.bindgen_ty, BindgenArgType::Regular) {
                out.push(copy_arg(a));
            }
            proof {
                assert(self@.args[i as int] == a@);
                lemma_regular_args_take_step(self@.args, i as int);
                assert(arg_views(out@) =~~= regular_args(self@.args.take(i as int + 1)));
            }
            i += 1;
        }
        proof {
            assert(self@.args.take(self@.args.len() as int) =~~= self@.args);
        }
        out
    }

    /// The record type for the ordinary call input: one field per
    /// `Regular` argument, in declaration order, each typed exactly as the
    /// argument, the whole record annotated for `input_serializer`.
    ///
    /// Fails, and only fails, when the signature has no `Regular`
    /// argument: that is a misuse of the generator by its caller.
    pub fn input_struct(&self) -> (r: Result<InputStruct, GenError>)
        ensures
            r is Ok <==> regular_args(self@.args).len() > 0,
            r is Err ==> r->Err_0 == GenError::NoInputArgs,
            r is Ok ==> r->Ok_0@ == input_struct_spec(self@),
    {
        let regs = self.input_args();
        if regs.len() == 0 {
            proof {
                assert(regular_args(self@.args).len() == arg_views(regs@).len());
            }
            Err(GenError::NoInputArgs)
        } else {
            let mut fields: Vec<Field> = Vec::new();
            let mut j: usize = 0;
            proof {
                assert(field_views(fields@) =~~= field_specs(self@.args).take(0));
            }
            while j < regs.len()
                invariant
                    j <= regs.len(),
                    arg_views(regs@) == regular_args(self@.args),
                    regs@.len() == field_specs(self@.args).len(),
                    field_views(fields@) == field_specs(self@.args).take(j as int),
                decreases regs.len() - j,
            {
                let a = &regs[j];
                proof {
                    assert(j < regs@.len());
                    assert(field_specs(self@.args).take(j as int).len() == j as int);
                    assert(field_views(fields@).len() == fields@.len());
                    assert(fields@.len() == j as int);
                }
                fields.push(make_field(a));
                proof {
                    assert(regular_args(self@.args)[j as int] == a@);
                    assert(field_views(fields@) =~~= field_specs(self@.args).take(j as int + 1));
                }
                j += 1;
            }
            let out = InputStruct { serializer: self.input_serializer, fields };
            proof {
                assert(field_specs(self@.args).take(regs@.len() as int) =~~= field_specs(
                    self@.args,
                ));
                assert(out@ =~~= input_struct_spec(self@));
            }
            Ok(out)
        }
    }

    /// The pattern that destructures the input record back into named
    /// bindings: one binding per `Regular` argument, in field order, each
    /// marked mutable exactly when the argument is declared mutable.
    ///
    /// Fails, and only fails, when the signature has no `Regular`
    /// argument: that is a misuse of the generator by its caller.
    pub fn decomposition_pattern(&self) -> (r: Result<DecompositionPattern, GenError>)
        ensures
            r is Ok <==> regular_args(self@.args).len() > 0,
            r is Err ==> r->Err_0 == GenError::NoInputArgs,
            r is Ok ==> r->Ok_0@ == decomposition_pattern_spec(self@),
    {
        let regs = self.input_args();
        if regs.len() == 0 {
            proof {
                assert(regular_args(self@.args).len() == arg_views(regs@).len());
            }
            Err(GenError::NoInputArgs)
        } else {
            let mut bindings: Vec<Binding> = Vec::new();
            let mut j: usize = 0;
            proof {
                assert(binding_views(bindings@) =~~= binding_specs(self@.args).take(0));
            }
            while j < regs.len()
                invariant
                    j <= regs.len(),
                    arg_views(regs@) == regular_args(self@.args),
                    regs@.len() == binding_specs(self@.args).len(),
                    binding_views(bindings@) == binding_specs(self@.args).take(j as int),
                decreases regs.len() - j,
            {
                let a = &regs[j];
                proof {
                    assert(j < regs@.len());
                    assert(binding_specs(self@.args).take(j as int).len() == j as int);
                    assert(binding_views(bindings@).len() == bindings@.len());
                    assert(bindings@.len() == j as int);
                }
                bindings.push(make_binding(a));
                proof {
                    assert(regular_args(self@.args)[j as int] == a@);
                    assert(binding_views(bindings@) =~~= binding_specs(self@.args).take(
                        j as int + 1,
                    ));
                }
                j += 1;
            }
            let out = DecompositionPattern { bindings };
            proof {
                assert(binding_specs(self@.args).take(regs@.len() as int) =~~= binding_specs(
                    self@.args,
                ));
                assert(out@ =~~= decomposition_pattern_spec(self@));
            }
            Ok(out)
        }
    }

    /// The call-site expression list: one expression per argument,
    /// whatever its kind, in original declaration order, carrying the
    /// argument's reference form (its declared mutability rides along as
    /// data about the upstream binding only). An empty argument list
    /// yields an empty expression list.
    pub fn arg_list(&self) -> (r: Vec<ArgExpr>)
        ensures
            expr_views(r@) == arg_exprs(self@.args),
    {
        let mut out: Vec<ArgExpr> = Vec::new();
        let mut i: usize = 0;
        proof {
            assert(expr_views(out@) =~~= arg_exprs(self@.args.take(0)));
        }
        while i < self.args.len()
            invariant
                i <= self.args.len(),
                self.args@.len() == self@.args.len(),
                expr_views(out@) == arg_exprs(self@.args.take(i as int)),
            decreases self.args.len() - i,
        {
            let a = &self.args[i];
            let ghost pre = out@;
            out.push(make_expr(a));
            proof {
                assert(self@.args[i as int] == a@);
                assert(self@.args.take(i as int + 1) =~~= self@.args.take(i as int).push(a@));
                lemma_arg_exprs_push(self@.args.take(i as int), a@);
                lemma_expr_views_push(pre, out@.last());
                assert(expr_views(out@) == arg_exprs(self@.args.take(i as int + 1)));
            }
            i += 1;
        }
        proof {
            assert(self@.args.take(self@.args.len() as int) =~~= self@.args);
        }
        out
    }

    /// The scalar-callback reads: one per `CallbackArg` argument, in
    /// subsequence order. The fetch index of each read is the argument's
    /// 0-based rank among the `CallbackArg` arguments alone, independent
    /// of interleaving with other kinds.
    pub fn callback_deserialization(&self) -> (r: Vec<CallbackRead>)
        ensures
            read_views(r@) == scalar_reads(self@.args),
    {
        let mut out: Vec<CallbackRead> = Vec::new();
        let mut idx: usize = 0;
        let mut i: usize = 0;
        proof {
            assert(read_views(out@) =~~= scalar_reads(self@.args.take(0)));
        }
        while i < self.args.len()
            invariant
                i <= self.args.len(),
                idx <= i,
                self.args@.len() == self@.args.len(),
                idx == callback_args(self@.args.take(i as int)).len(),
                read_views(out@) == scalar_reads(self@.args.take(i as int)),
            decreases self.args.len() - i,
        {
            let a = &self.args[i];
            proof {
                assert(scalar_reads(self@.args.take(i as int)).len() == callback_args(
                    self@.args.take(i as int),
                ).len());
                assert(read_views(out@).len() == out@.len());
            }
            if matches!(a.bindgen_ty, BindgenArgType::CallbackArg) {
                let ghost pre = out@;
                out.push(make_read(idx, a));
                idx += 1;
                proof {
                    assert(self@.args[i as int] == a@);
                    lemma_callback_args_take_step(self@.args, i as int);
                    lemma_reads_of_callbacks_push(callback_args(self@.args.take(i as int)), a@);
                    lemma_read_views_push(pre, out@.last());
                    assert(read_views(out@) == scalar_reads(self@.args.take(i as int + 1)));
                }
            } else {
                proof {
                    assert(self@.args[i as int] == a@);
                    lemma_callback_args_take_step(self@.args, i as int);
                    assert(read_views(out@) == scalar_reads(self@.args.take(i as int + 1)));
                }
            }
            i += 1;
        }
        proof {
            assert(self@.args.take(self@.args.len() as int) =~~= self@.args);
        }
        out
    }

    /// The vector-callback reads: one per `CallbackArgVec` argument, in
    /// subsequence order. A read holds no result count: the generated
    /// loop queries the host for the count at run time.
    pub fn callback_vec_deserialization(&self) -> (r: Vec<CallbackVecRead>)
        ensures
            vec_read_views(r@) == vec_reads(self@.args),
    {
        let mut out: Vec<CallbackVecRead> = Vec::new();
        let mut i: usize = 0;
        proof {
            assert(vec_read_views(out@) =~~= vec_reads(self@.args.take(0)));
        }
        while i < self.args.len()
            invariant
                i <= self.args.len(),
                self.args@.len() == self@.args.len(),
                vec_read_views(out@) == vec_reads(self@.args.take(i as int)),
            decreases self.args.len() - i,
        {
            let a = &self.args[i];
            if matches!(a.bindgen_ty, BindgenArgType::CallbackArgVec) {
                let ghost pre = out@;
                out.push(make_vec_read(a));
                proof {
                    assert(self@.args[i as int] == a@);
                    lemma_callback_vec_args_take_step(self@.args, i as int);
                    lemma_vec_reads_of_push(callback_vec_args(self@.args.take(i as int)), a@);
                    lemma_vec_read_views_push(pre, out@.last());
                    assert(vec_read_views(out@) == vec_reads(self@.args.take(i as int + 1)));
                }
            } else {
                proof {
                    assert(self@.args[i as int] == a@);
                    lemma_callback_vec_args_take_step(self@.args, i as int);
                    assert(vec_read_views(out@) == vec_reads(self@.args.take(i as int + 1)));
                }
            }
            i += 1;
        }
        proof {
            assert(self@.args.take(self@.args.len() as int) =~~= self@.args);
        }
        out
    }
}

} // verus!
