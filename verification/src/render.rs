//! Exact textual rendering of the fragments, in the host language's
//! surface syntax. Every renderer is pinned character-for-character by a
//! spec function over the fragment's view.

use vstd::prelude::*;
use vstd::string::StringExecFns;

use crate::model::Mutability;
use crate::model::ReferenceForm;
use crate::model::SerializerType;
use crate::fragments::ArgExpr;
use crate::fragments::ArgExprSpec;
use crate::fragments::Binding;
use crate::fragments::BindingSpec;
use crate::fragments::CallbackRead;
use crate::fragments::CallbackReadSpec;
use crate::fragments::CallbackVecRead;
use crate::fragments::CallbackVecReadSpec;
use crate::fragments::DecompositionPattern;
use crate::fragments::DecompositionPatternSpec;
use crate::fragments::Field;
use crate::fragments::FieldSpec;
use crate::fragments::InputStruct;
use crate::fragments::InputStructSpec;
use crate::fragments::binding_views;
use crate::fragments::expr_views;
use crate::fragments::field_views;
use crate::fragments::read_views;
use crate::fragments::vec_read_views;

verus! {

/// The decimal digit character for one digit value.
pub open spec fn dec_digit(d: int) -> char {
    if d == 0 {
        '0'
    } else if d == 1 {
        '1'
    } else if d == 2 {
        '2'
    } else if d == 3 {
        '3'
    } else if d == 4 {
        '4'
    } else if d == 5 {
        '5'
    } else if d == 6 {
        '6'
    } else if d == 7 {
        '7'
    } else if d == 8 {
        '8'
    } else {
        '9'
    }
}

/// The decimal representation of a number, most significant digit first,
/// without leading zeros (a single `'0'` for zero).
pub open spec fn dec_rep(n: nat) -> Seq<char>
    decreases n,
{
    if n < 10 {
        seq![dec_digit(n as int)]
    } else {
        dec_rep(n / 10).push(dec_digit((n % 10) as int))
    }
}

/// The one-character string for one digit value.
fn digit_str(d: usize) -> (r: &'static str)
    requires
        d < 10,
    ensures
        r@ == seq![dec_digit(d as int)],
{
    let r: &'static str = match d {
        0 => "0",
        1 => "1",
        2 => "2",
        3 => "3",
        4 => "4",
        5 => "5",
        6 => "6",
        7 => "7",
        8 => "8",
        _ => "9",
    };
    proof {
        reveal_strlit("0");
        reveal_strlit("1");
        reveal_strlit("2");
        reveal_strlit("3");
        reveal_strlit("4");
        reveal_strlit("5");
        reveal_strlit("6");
        reveal_strlit("7");
        reveal_strlit("8");
        reveal_strlit("9");
        assert(r@ =~= seq![dec_digit(d as int)]);
    }
    r
}

/// The decimal text of a number.
fn usize_to_dec(n: usize) -> (r: String)
    ensures
        r@ == dec_rep(n as nat),
    decreases n,
{
    let d: usize = n % 10;
    let ds = digit_str(d);
    if n < 10 {
        ds.to_owned()
    } else {
        let mut s = usize_to_dec(n / 10);
        s.append(ds);
        proof {
            assert(s@ =~= dec_rep(n as nat));
        }
        s
    }
}

/// The mutability marker as it stands in a binding.
pub open spec fn mut_text(m: Mutability) -> Seq<char> {
    if m is Mutable {
        "mut "@
    } else {
        Seq::empty()
    }
}

/// Appends the mutability marker.
fn append_mut(out: &mut String, m: Mutability)
    ensures
        final(out)@ == old(out)@ + mut_text(m),
{
    if matches!(m, Mutability::Mutable) {
        out.append("mut ");
    } else {
        proof {
            assert(out@ + mut_text(m) =~= out@);
        }
    }
}

/// The call-site text of one expression: the identifier behind its
/// reference-form modifier, and nothing else. Mutability affects only
/// how the identifier was bound upstream, so no mutability marker ever
/// appears in a call expression: a by-value argument is passed as the
/// bare identifier however it was bound.
pub open spec fn expr_text(e: ArgExprSpec) -> Seq<char> {
    match e.reference {
        ReferenceForm::Value => e.ident,
        ReferenceForm::Borrowed => "&"@ + e.ident,
        ReferenceForm::BorrowedMut => "&mut "@ + e.ident,
    }
}

/// Appends one call-site expression.
fn append_expr(out: &mut String, e: &ArgExpr)
    ensures
        final(out)@ == old(out)@ + expr_text(e@),
{
    match e.reference {
        ReferenceForm::Value => {
            out.append(e.ident.as_str());
            proof {
                assert(out@ =~= old(out)@ + expr_text(e@));
            }
        },
        ReferenceForm::Borrowed => {
            out.append("&");
            out.append(e.ident.as_str());
            proof {
                assert(out@ =~= old(out)@ + expr_text(e@));
            }
        },
        ReferenceForm::BorrowedMut => {
            out.append("&mut ");
            out.append(e.ident.as_str());
            proof {
                assert(out@ =~= old(out)@ + expr_text(e@));
            }
        },
    }
}

/// The text of a call-site expression list: each expression followed by
/// a comma, in order.
pub open spec fn arg_list_text(es: Seq<ArgExprSpec>) -> Seq<char>
    decreases es.len(),
{
    if es.len() == 0 {
        Seq::empty()
    } else {
        arg_list_text(es.drop_last()) + expr_text(es.last()) + ", "@
    }
}

/// The source text of the call-site expression list.
pub fn render_arg_list(es: &Vec<ArgExpr>) -> (r: String)
    ensures
        r@ == arg_list_text(expr_views(es@)),
{
    let mut out = String::new();
    let mut i: usize = 0;
    proof {
        assert(out@ =~= arg_list_text(expr_views(es@).take(0)));
    }
    while i < es.len()
        invariant
            i <= es.len(),
            es@.len() == expr_views(es@).len(),
            out@ == arg_list_text(expr_views(es@).take(i as int)),
        decreases es.len() - i,
    {
        let e = &es[i];
        append_expr(&mut out, e);
        out.append(", ");
        proof {
            let t = expr_views(es@).take(i as int + 1);
            assert(t.drop_last() =~~= expr_views(es@).take(i as int));
            assert(t.last() == e@);
            assert(out@ =~= arg_list_text(t));
        }
        i += 1;
    }
    proof {
        assert(expr_views(es@).take(es@.len() as int) =~~= expr_views(es@));
    }
    out
}

/// The text of one pattern binding: its mutability marker, the
/// identifier, and a comma.
pub open spec fn binding_text(b: BindingSpec) -> Seq<char> {
    mut_text(b.mutability) + b.ident + ", "@
}

/// The text of a binding list, in order.
pub open spec fn bindings_text(bs: Seq<BindingSpec>) -> Seq<char>
    decreases bs.len(),
{
    if bs.len() == 0 {
        Seq::empty()
    } else {
        bindings_text(bs.drop_last()) + binding_text(bs.last())
    }
}

/// The text of the decomposition pattern: a destructure of the input
/// record listing every binding in field order.
pub open spec fn pattern_text(p: DecompositionPatternSpec) -> Seq<char> {
    "Input { "@ + bindings_text(p.bindings) + "}"@
}

/// The source text of the decomposition pattern.
pub fn render_decomposition_pattern(p: &DecompositionPattern) -> (r: String)
    ensures
        r@ == pattern_text(p@),
{
    let mut out = String::from_str("Input { ");
    let mut i: usize = 0;
    proof {
        assert(out@ =~= "Input { "@ + bindings_text(binding_views(p.bindings@).take(0)));
    }
    while i < p.bindings.len()
        invariant
            i <= p.bindings.len(),
            p.bindings@.len() == binding_views(p.bindings@).len(),
            out@ == "Input { "@ + bindings_text(binding_views(p.bindings@).take(i as int)),
        decreases p.bindings.len() - i,
    {
        let b = &p.bindings[i];
        append_mut(&mut out, b.mutability);
        out.append(b.ident.as_str());
        out.append(", ");
        proof {
            let t = binding_views(p.bindings@).take(i as int + 1);
            assert(t.drop_last() =~~= binding_views(p.bindings@).take(i as int));
            assert(t.last() == b@);
            assert(out@ =~= "Input { "@ + bindings_text(t));
        }
        i += 1;
    }
    out.append("}");
    proof {
        assert(binding_views(p.bindings@).take(p.bindings@.len() as int) =~~= binding_views(
            p.bindings@,
        ));
        assert(out@ =~= pattern_text(p@));
    }
    out
}

/// The derive attribute that makes the input record decodable in the
/// signature's input format.
pub open spec fn attr_text(s: SerializerType) -> Seq<char> {
    if s is JSON {
        "#[derive(serde::Deserialize)]"@
    } else {
        "#[derive(borsh::BorshDeserialize)]"@
    }
}

/// Appends the derive attribute for the input format.
fn append_attr(out: &mut String, s: SerializerType)
    ensures
        final(out)@ == old(out)@ + attr_text(s),
{
    match s {
        SerializerType::JSON => {
            out.append("#[derive(serde::Deserialize)]");
        },
        SerializerType::Borsh => {
            out.append("#[derive(borsh::BorshDeserialize)]");
        },
    }
}

/// The text of one record field: the identifier and its type, indented,
/// on a line of its own.
pub open spec fn field_text(f: FieldSpec) -> Seq<char> {
    "    "@ + f.ident + ": "@ + f.ty + ",\n"@
}

/// The text of a field list, in order.
pub open spec fn fields_text(fs: Seq<FieldSpec>) -> Seq<char>
    decreases fs.len(),
{
    if fs.len() == 0 {
        Seq::empty()
    } else {
        fields_text(fs.drop_last()) + field_text(fs.last())
    }
}

/// The text of the input record type: the derive attribute for the input
/// format, then a record with one field per `Regular` argument.
pub open spec fn input_struct_text(s: InputStructSpec) -> Seq<char> {
    attr_text(s.serializer) + "\nstruct Input {\n"@ + fields_text(s.fields) + "}\n"@
}

/// The source text of the input record type.
pub fn render_input_struct(f: &InputStruct) -> (r: String)
    ensures
        r@ == input_struct_text(f@),
{
    let mut out = String::new();
    append_attr(&mut out, f.serializer);
    out.append("\nstruct Input {\n");
    let ghost head = attr_text(f@.serializer) + "\nstruct Input {\n"@;
    let mut i: usize = 0;
    proof {
        assert(out@ =~= head + fields_text(field_views(f.fields@).take(0)));
    }
    while i < f.fields.len()
        invariant
            i <= f.fields.len(),
            f.fields@.len() == field_views(f.fields@).len(),
            head == attr_text(f@.serializer) + "\nstruct Input {\n"@,
            out@ == head + fields_text(field_views(f.fields@).take(i as int)),
        decreases f.fields.len() - i,
    {
        let fld = &f.fields[i];
        out.append("    ");
        out.append(fld.ident.as_str());
        out.append(": ");
        out.append(fld.ty.as_str());
        out.append(",\n");
        proof {
            let t = field_views(f.fields@).take(i as int + 1);
            assert(t.drop_last() =~~= field_views(f.fields@).take(i as int));
            assert(t.last() == fld@);
            assert(out@ =~= head + fields_text(t));
        }
        i += 1;
    }
    out.append("}\n");
    proof {
        assert(field_views(f.fields@).take(f.fields@.len() as int) =~~= field_views(f.fields@));
        assert(out@ =~= input_struct_text(f@));
    }
    out
}

/// The decode call that turns one result's raw bytes into a typed value,
/// in the named format.
pub open spec fn decode_text(s: SerializerType) -> Seq<char> {
    if s is JSON {
        "serde_json::from_slice(&data).expect(\"Failed to deserialize callback using JSON\")"@
    } else {
        "borsh::Deserialize::try_from_slice(&data).expect(\"Failed to deserialize callback using JSON\")"@
    }
}

/// Appends the decode call for one format.
fn append_decode(out: &mut String, s: SerializerType)
    ensures
        final(out)@ == old(out)@ + decode_text(s),
{
    match s {
        SerializerType::JSON => {
            out.append(
                "serde_json::from_slice(&data).expect(\"Failed to deserialize callback using JSON\")",
            );
        },
        SerializerType::Borsh => {
            out.append(
                "borsh::Deserialize::try_from_slice(&data).expect(\"Failed to deserialize callback using JSON\")",
            );
        },
    }
}

/// The text of one scalar-callback read: fetch the host result at the
/// read's fixed index, abort on an unsuccessful result naming that
/// index, decode the bytes in the read's format, and bind the value.
pub open spec fn scalar_read_text(r: CallbackReadSpec) -> Seq<char> {
    "let data: Vec<u8> = match near_bindgen::env::promise_result("@ + dec_rep(r.index as nat)
        + ") {\n    near_bindgen::PromiseResult::Successful(x) => x,\n    _ => panic!(\"Callback computation {} was not successful\", "@
        + dec_rep(r.index as nat) + ")\n};\nlet "@ + mut_text(r.mutability) + r.ident + ": "@
        + r.ty + " = "@ + decode_text(r.serializer) + ";\n"@
}

/// The text of a list of scalar-callback reads, concatenated in
/// subsequence order; each read is self-contained.
pub open spec fn scalar_reads_text(rs: Seq<CallbackReadSpec>) -> Seq<char>
    decreases rs.len(),
{
    if rs.len() == 0 {
        Seq::empty()
    } else {
        scalar_reads_text(rs.drop_last()) + scalar_read_text(rs.last())
    }
}

/// Appends one scalar-callback read.
fn append_scalar_read(out: &mut String, r: &CallbackRead)
    ensures
        final(out)@ == old(out)@ + scalar_read_text(r@),
{
    out.append("let data: Vec<u8> = match near_bindgen::env::promise_result(");
    let d = usize_to_dec(r.index);
    out.append(d.as_str());
    out.append(
        ") {\n    near_bindgen::PromiseResult::Successful(x) => x,\n    _ => panic!(\"Callback computation {} was not successful\", ",
    );
    out.append(d.as_str());
    out.append(")\n};\nlet ");
    append_mut(out, r.mutability);
    out.append(r.ident.as_str());
    out.append(": ");
    out.append(r.ty.as_str());
    out.append(" = ");
    append_decode(out, r.serializer);
    out.append(";\n");
    proof {
        assert(out@ =~= old(out)@ + scalar_read_text(r@));
    }
}

/// The source text of the scalar-callback reads, in order.
pub fn render_callback_reads(rs: &Vec<CallbackRead>) -> (r: String)
    ensures
        r@ == scalar_reads_text(read_views(rs@)),
{
    let mut out = String::new();
    let mut i: usize = 0;
    proof {
        assert(out@ =~= scalar_reads_text(read_views(rs@).take(0)));
    }
    while i < rs.len()
        invariant
            i <= rs.len(),
            rs@.len() == read_views(rs@).len(),
            out@ == scalar_reads_text(read_views(rs@).take(i as int)),
        decreases rs.len() - i,
    {
        append_scalar_read(&mut out, &rs[i]);
        proof {
            let t = read_views(rs@).take(i as int + 1);
            assert(t.drop_last() =~~= read_views(rs@).take(i as int));
            assert(t.last() == rs@[i as int]@);
            assert(out@ =~= scalar_reads_text(t));
        }
        i += 1;
    }
    proof {
        assert(read_views(rs@).take(rs@.len() as int) =~~= read_views(rs@));
    }
    out
}

/// The host query for the number of available results. The generated
/// loop is bound by this call at run time; no count is baked in at
/// generation time.
pub open spec fn count_query_text() -> Seq<char> {
    "near_bindgen::env::promise_results_count()"@
}

/// The text of one vector-callback read: a loop over every host result
/// index from 0 up to the run-time count, aborting on the first
/// unsuccessful result naming its index, decoding each in the read's
/// format, and collecting into a sequence bound to the identifier.
pub open spec fn vec_read_text(v: CallbackVecReadSpec) -> Seq<char> {
    "let "@ + mut_text(v.mutability) + v.ident + ": "@ + v.ty + " = (0.."@ + count_query_text()
        + ").map(|i| {\n    let data: Vec<u8> = match near_bindgen::env::promise_result(i) {\n        near_bindgen::PromiseResult::Successful(x) => x,\n        _ => panic!(\"Callback computation {} was not successful\", i)\n    };\n    "@
        + decode_text(v.serializer) + "\n}).collect();\n"@
}

/// Law: the text of every vector-callback read embeds the host count
/// query right after its loop-range opening: the loop bound is read at
/// run time, never a generation-time constant.
pub proof fn lemma_vec_read_text_queries_count(v: CallbackVecReadSpec)
    ensures
        ({
            let k = ("let "@ + mut_text(v.mutability) + v.ident + ": "@ + v.ty
                + " = (0.."@).len() as int;
            vec_read_text(v).subrange(k, k + count_query_text().len() as int)
                == count_query_text()
        }),
{
    let pre = "let "@ + mut_text(v.mutability) + v.ident + ": "@ + v.ty + " = (0.."@;
    let k = pre.len() as int;
    assert(vec_read_text(v).subrange(k, k + count_query_text().len() as int)
        =~= count_query_text());
}

/// The text of a list of vector-callback reads, concatenated in
/// subsequence order.
pub open spec fn vec_reads_text(vs: Seq<CallbackVecReadSpec>) -> Seq<char>
    decreases vs.len(),
{
    if vs.len() == 0 {
        Seq::empty()
    } else {
        vec_reads_text(vs.drop_last()) + vec_read_text(vs.last())
    }
}

/// Appends one vector-callback read.
fn append_vec_read(out: &mut String, v: &CallbackVecRead)
    ensures
        final(out)@ == old(out)@ + vec_read_text(v@),
{
    out.append("let ");
    append_mut(out, v.mutability);
    out.append(v.ident.as_str());
    out.append(": ");
    out.append(v.ty.as_str());
    out.append(" = (0..");
    out.append("near_bindgen::env::promise_results_count()");
    out.append(
        ").map(|i| {\n    let data: Vec<u8> = match near_bindgen::env::promise_result(i) {\n        near_bindgen::PromiseResult::Successful(x) => x,\n        _ => panic!(\"Callback computation {} was not successful\", i)\n    };\n    ",
    );
    append_decode(out, v.serializer);
    out.append("\n}).collect();\n");
    proof {
        assert(out@ =~= old(out)@ + vec_read_text(v@));
    }
}

/// The source text of the vector-callback reads, in order.
pub fn render_callback_vec_reads(vs: &Vec<CallbackVecRead>) -> (r: String)
    ensures
        r@ == vec_reads_text(vec_read_views(vs@)),
{
    let mut out = String::new();
    let mut i: usize = 0;
    proof {
        assert(out@ =~= vec_reads_text(vec_read_views(vs@).take(0)));
    }
    while i < vs.len()
        invariant
            i <= vs.len(),
            vs@.len() == vec_read_views(vs@).len(),
            out@ == vec_reads_text(vec_read_views(vs@).take(i as int)),
        decreases vs.len() - i,
    {
        append_vec_read(&mut out, &vs[i]);
        proof {
            let t = vec_read_views(vs@).take(i as int + 1);
            assert(t.drop_last() =~~= vec_read_views(vs@).take(i as int));
            assert(t.last() == vs@[i as int]@);
            assert(out@ =~= vec_reads_text(t));
        }
        i += 1;
    }
    proof {
        assert(vec_read_views(vs@).take(vs@.len() as int) =~~= vec_read_views(vs@));
    }
    out
}

} // verus!
