//! The relations that hold between the generation operations, proved once
//! for every signature.

use vstd::prelude::*;

use crate::model::ArgSpec;
use crate::model::callback_args;
use crate::model::callback_vec_args;
use crate::model::regular_args;
use crate::fragments::arg_exprs;
use crate::fragments::binding_specs;
use crate::fragments::expr_of;
use crate::fragments::field_specs;
use crate::fragments::scalar_reads;
use crate::fragments::vec_reads;

verus! {

/// Law: the argument kinds partition the argument list: every argument
/// lands in exactly one of the three subsequences that the generation
/// operations work on.
pub proof fn lemma_kinds_partition_arguments(args: Seq<ArgSpec>)
    ensures
        regular_args(args).len() + callback_args(args).len() + callback_vec_args(args).len()
            == args.len(),
    decreases args.len(),
{
    if args.len() > 0 {
        lemma_kinds_partition_arguments(args.drop_last());
    }
}

/// Law: the `Regular` subsequence holds `Regular` arguments only.
pub proof fn lemma_regular_args_are_regular(args: Seq<ArgSpec>)
    ensures
        forall|j: int|
            0 <= j < regular_args(args).len() ==> (#[trigger] regular_args(
                args,
            )[j]).bindgen_ty is Regular,
    decreases args.len(),
{
    if args.len() > 0 {
        lemma_regular_args_are_regular(args.drop_last());
    }
}

/// Law: for any argument list, the input-record fields and the
/// decomposition-pattern bindings name exactly the same identifiers, in
/// exactly the same order, and each binding is mutable exactly when its
/// argument is declared mutable.
pub proof fn lemma_fields_match_bindings(args: Seq<ArgSpec>)
    ensures
        field_specs(args).len() == binding_specs(args).len(),
        forall|j: int|
            0 <= j < field_specs(args).len() ==> #[trigger] field_specs(args)[j].ident
                == binding_specs(args)[j].ident,
        forall|j: int|
            0 <= j < binding_specs(args).len() ==> #[trigger] binding_specs(args)[j].mutability
                == regular_args(args)[j].mutability,
{
}

/// Law: the call-site expression list holds one expression per declared
/// argument, in original declaration order, whatever the argument's
/// kind: the expression at position `j` is exactly the expression of the
/// argument declared at position `j`.
pub proof fn lemma_arg_list_order(args: Seq<ArgSpec>)
    ensures
        arg_exprs(args).len() == args.len(),
        forall|j: int|
            0 <= j < args.len() ==> #[trigger] arg_exprs(args)[j] == expr_of(args[j]),
{
}

/// Law: there is one scalar-callback read per scalar-callback argument,
/// in subsequence order, and the fetch index of the read at position `j`
/// is `j` itself: the 0-based rank of its argument among the
/// scalar-callback arguments alone, independent of interleaving with
/// arguments of other kinds.
pub proof fn lemma_callback_indices(args: Seq<ArgSpec>)
    ensures
        scalar_reads(args).len() == callback_args(args).len(),
        forall|j: int|
            0 <= j < scalar_reads(args).len() ==> #[trigger] scalar_reads(args)[j].index == j,
        forall|j: int|
            0 <= j < scalar_reads(args).len() ==> #[trigger] scalar_reads(args)[j].ident
                == callback_args(args)[j].ident,
{
}

/// Law: vector-callback generation is a function of the vector-callback
/// arguments alone: two argument lists that agree on that subsequence
/// yield the same reads. Together with the absence of any count field on
/// a read, this is why re-running generation yields code that adapts to
/// whatever number of host results exists at run time.
pub proof fn lemma_vec_reads_deterministic(a1: Seq<ArgSpec>, a2: Seq<ArgSpec>)
    requires
        callback_vec_args(a1) == callback_vec_args(a2),
    ensures
        vec_reads(a1) == vec_reads(a2),
{
}

} // verus!
