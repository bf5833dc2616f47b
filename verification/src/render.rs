//! Rendering the ordered triples into generated source text.
//!
//! The text wraps the fields in a namespace and class; each triple yields
//! exactly one field declaration, in the given order, carrying the type
//! text and a doc comment built from the remark (whose continuation
//! formatting the row projection has already applied).

use vstd::prelude::*;
use vstd::string::*;
use crate::rows::FieldTriple;
use crate::rows::TripleV;

verus! {

/// The text that opens the generated unit: the namespace and class lines.
pub open spec fn spec_header(namespace: Seq<char>, class_name: Seq<char>) -> Seq<char> {
    "namespace "@ + namespace + "\n{\n    public class "@ + class_name + "\n    {\n"@
}

/// The text that closes the generated unit.
pub open spec fn spec_footer() -> Seq<char> {
    "    }\n}\n"@
}

/// One field declaration: a doc comment built from the remark, then the
/// typed field named by the triple's name token.
pub open spec fn spec_field_block(t: TripleV) -> Seq<char> {
    "        /// "@ + t.remark + "\n        public "@ + t.field_type + " "@ + t.name + ";\n"@
}

/// The field blocks of all triples, in order.
pub open spec fn spec_fields(ts: Seq<TripleV>) -> Seq<char>
    decreases ts.len(),
{
    if ts.len() == 0 {
        Seq::empty()
    } else {
        spec_field_block(ts[0]) + spec_fields(ts.drop_first())
    }
}

/// The whole generated text: header, one field block per triple in the
/// given order, footer.
pub open spec fn spec_render(namespace: Seq<char>, class_name: Seq<char>, ts: Seq<TripleV>) -> Seq<
    char,
> {
    spec_header(namespace, class_name) + spec_fields(ts) + spec_footer()
}

/// Extending the triples by one appends exactly that triple's block.
pub proof fn lemma_fields_snoc(ts: Seq<TripleV>, t: TripleV)
    ensures
        spec_fields(ts.push(t)) == spec_fields(ts) + spec_field_block(t),
    decreases ts.len(),
{
    if ts.len() == 0 {
        assert(ts.push(t)[0] == t);
        assert(ts.push(t).drop_first() =~= Seq::<TripleV>::empty());
        assert(spec_fields(Seq::<TripleV>::empty()) == Seq::<char>::empty());
        assert(spec_fields(ts.push(t)) == spec_field_block(t) + Seq::<char>::empty());
        assert(spec_field_block(t) + Seq::<char>::empty() =~= spec_field_block(t));
        assert(spec_fields(ts) == Seq::<char>::empty());
        assert(spec_fields(ts) + spec_field_block(t) =~= spec_field_block(t));
    } else {
        lemma_fields_snoc(ts.drop_first(), t);
        assert(ts.push(t)[0] == ts[0]);
        assert(ts.push(t).drop_first() =~= ts.drop_first().push(t));
        assert(spec_fields(ts.push(t)) =~= spec_fields(ts) + spec_field_block(t));
    }
}

/// Renders the generated source text for one class: the namespace and
/// class wrapping, then one field declaration per triple, in the given
/// order — no triple reordered, merged or dropped.
pub fn render(namespace: &String, class_name: &String, triples: &Vec<FieldTriple>) -> (r: String)
    ensures
        r@ == spec_render(namespace@, class_name@, triples.deep_view()),
{
    let ghost tv = triples.deep_view();
    let mut out = String::new();
    out.append("namespace ");
    out.append(namespace.as_str());
    out.append("\n{\n    public class ");
    out.append(class_name.as_str());
    out.append("\n    {\n");
    assert(out@ =~= spec_header(namespace@, class_name@));
    let mut i: usize = 0;
    proof {
        assert(tv.take(0) =~= Seq::<TripleV>::empty());
        assert(out@ + Seq::<char>::empty() =~= out@);
    }
    while i < triples.len()
        invariant
            i <= triples@.len(),
            tv == triples.deep_view(),
            tv.len() == triples@.len(),
            out@ == spec_header(namespace@, class_name@) + spec_fields(tv.take(i as int)),
        decreases triples@.len() - i,
    {
        let t = &triples[i];
        out.append("        /// ");
        out.append(t.remark.as_str());
        out.append("\n        public ");
        out.append(t.field_type.as_str());
        out.append(" ");
        out.append(t.name.as_str());
        out.append(";\n");
        proof {
            lemma_fields_snoc(tv.take(i as int), tv[i as int]);
            assert(tv.take(i as int).push(tv[i as int]) =~= tv.take(i + 1 as int));
            assert(out@ =~= spec_header(namespace@, class_name@) + spec_fields(
                tv.take(i + 1 as int),
            ));
        }
        i += 1;
    }
    proof {
        assert(tv.take(triples@.len() as int) =~= tv);
    }
    out.append("    }\n}\n");
    proof {
        assert(out@ =~= spec_render(namespace@, class_name@, tv));
    }
    out
}

} // verus!
