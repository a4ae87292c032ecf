//! Label selectors, written as a list query.
use crate::text::{join, joined, same_text, texts};
use vstd::prelude::*;
use vstd::string::StringExecFns;

verus! {

/// A requirement on one label.
pub struct LabelSelectorRequirement {
    pub key: String,
    pub operator: String,
    pub values: Vec<String>,
}

/// A selector. `match_labels` is in key order.
pub struct LabelSelector {
    pub match_labels: Vec<(String, String)>,
    pub match_expressions: Vec<LabelSelectorRequirement>,
}

/// The query terms of the labels.
pub open spec fn label_terms(labels: Seq<(String, String)>) -> Seq<Seq<char>> {
    labels.map_values(|l: (String, String)| l.0@ + "="@ + l.1@)
}

/// The query term of a requirement; one with an unknown operator has none.
pub open spec fn requirement_term(r: LabelSelectorRequirement) -> Option<Seq<char>> {
    let values = joined(texts(r.values@), ","@);
    if r.operator@ == "In"@ {
        Some(r.key@ + " in ("@ + values + ")"@)
    } else if r.operator@ == "NotIn"@ {
        Some(r.key@ + " notin ("@ + values + ")"@)
    } else if r.operator@ == "Exists"@ {
        Some(r.key@)
    } else if r.operator@ == "DoesNotExist"@ {
        Some("!"@ + r.key@)
    } else {
        None
    }
}

/// The query terms of the requirements, in order.
pub open spec fn requirement_terms(rs: Seq<LabelSelectorRequirement>) -> Seq<Seq<char>>
    decreases rs.len(),
{
    if rs.len() == 0 {
        Seq::empty()
    } else {
        let before = requirement_terms(rs.drop_last());
        match requirement_term(rs.last()) {
            Some(t) => before.push(t),
            None => before,
        }
    }
}

/// A selector, written as a list query: labels first, then requirements, with
/// commas between.
pub open spec fn selector_query(sel: LabelSelector) -> Seq<char> {
    joined(
        label_terms(sel.match_labels@) + requirement_terms(sel.match_expressions@),
        ","@,
    )
}

fn term_of(r: &LabelSelectorRequirement) -> (term: Option<String>)
    ensures
        term is Some <==> requirement_term(*r) is Some,
        term is Some ==> term->0@ == requirement_term(*r)->0,
{
    let values = join(&r.values, ",");
    if same_text(r.operator.as_str(), "In") {
        let mut term = r.key.clone();
        term.append(" in (");
        term.append(values.as_str());
        term.append(")");
        Some(term)
    } else if same_text(r.operator.as_str(), "NotIn") {
        let mut term = r.key.clone();
        term.append(" notin (");
        term.append(values.as_str());
        term.append(")");
        Some(term)
    } else if same_text(r.operator.as_str(), "Exists") {
        Some(r.key.clone())
    } else if same_text(r.operator.as_str(), "DoesNotExist") {
        let mut term = "!".to_owned();
        term.append(r.key.as_str());
        Some(term)
    } else {
        None
    }
}

/// Writes a selector as a list query. An empty selector gives an empty query.
pub fn label_selector_to_string(sel: &LabelSelector) -> (query: String)
    ensures
        query@ == selector_query(*sel),
{
    let labels = &sel.match_labels;
    let rs = &sel.match_expressions;
    let mut terms: Vec<String> = Vec::new();
    let mut i: usize = 0;
    while i < labels.len()
        invariant
            i <= labels.len(),
            labels@ == sel.match_labels@,
            texts(terms@) =~= label_terms(labels@.take(i as int)),
        decreases labels.len() - i,
    {
        let mut term = labels[i].0.clone();
        term.append("=");
        term.append(labels[i].1.as_str());
        let ghost before = terms@;
        terms.push(term);
        proof {
            assert(texts(terms@) =~= texts(before).push(term@));
            assert(label_terms(labels@.take(i + 1)) =~= label_terms(labels@.take(i as int)).push(
                term@,
            ));
        }
        i = i + 1;
    }
    assert(labels@.take(i as int) =~= labels@);
    let mut j: usize = 0;
    while j < rs.len()
        invariant
            j <= rs.len(),
            rs@ == sel.match_expressions@,
            texts(terms@) =~= label_terms(sel.match_labels@) + requirement_terms(
                rs@.take(j as int),
            ),
        decreases rs.len() - j,
    {
        proof {
            assert(rs@.take(j + 1).drop_last() =~= rs@.take(j as int));
            assert(rs@.take(j + 1).last() == rs@[j as int]);
        }
        let ghost before = terms@;
        if let Some(term) = term_of(&rs[j]) {
            terms.push(term);
            assert(texts(terms@) =~= texts(before).push(term@));
        }
        j = j + 1;
    }
    assert(rs@.take(j as int) =~= rs@);
    join(&terms, ",")
}

/// Each requirement is written by its operator, and one whose operator is not
/// known is left out.
pub proof fn requirement_is_written_by_its_operator(r: LabelSelectorRequirement)
    ensures
        ({
            let values = joined(texts(r.values@), ","@);
            let term = requirement_term(r);
            &&& r.operator@ == "In"@ ==> term == Some(r.key@ + " in ("@ + values + ")"@)
            &&& r.operator@ == "NotIn"@ ==> term == Some(r.key@ + " notin ("@ + values + ")"@)
            &&& r.operator@ == "Exists"@ ==> term == Some(r.key@)
            &&& r.operator@ == "DoesNotExist"@ ==> term == Some("!"@ + r.key@)
            &&& term is None <==> r.operator@ != "In"@ && r.operator@ != "NotIn"@ && r.operator@
                != "Exists"@ && r.operator@ != "DoesNotExist"@
        }),
{
    reveal_strlit("In");
    reveal_strlit("NotIn");
    reveal_strlit("Exists");
    reveal_strlit("DoesNotExist");
    assert("In"@.len() == 2 && "NotIn"@.len() == 5 && "Exists"@.len() == 6 && "DoesNotExist"@.len()
        == 12);
}

/// A query holds a term for every label and every requirement that is known, in
/// order: one more requirement adds its term at the end and changes no other.
pub proof fn query_holds_every_term(
    labels: Seq<(String, String)>,
    k: int,
    rs: Seq<LabelSelectorRequirement>,
    r: LabelSelectorRequirement,
)
    requires
        0 <= k < labels.len(),
    ensures
        label_terms(labels).len() == labels.len(),
        label_terms(labels)[k] == labels[k].0@ + "="@ + labels[k].1@,
        requirement_terms(Seq::empty()).len() == 0,
        requirement_term(r) is Some ==> requirement_terms(rs.push(r)) == requirement_terms(rs).push(
            requirement_term(r)->0,
        ),
        requirement_term(r) is None ==> requirement_terms(rs.push(r)) == requirement_terms(rs),
{
    assert(rs.push(r).drop_last() =~= rs);
}

/// A selector's query is its terms with commas between, and empty where it has
/// none.
pub proof fn query_is_its_terms(sel: LabelSelector)
    ensures
        ({
            let terms = label_terms(sel.match_labels@) + requirement_terms(sel.match_expressions@);
            &&& terms.len() == 0 ==> selector_query(sel).len() == 0
            &&& terms.len() == 1 ==> selector_query(sel) == terms[0]
            &&& terms.len() > 1 ==> selector_query(sel) == joined(terms.drop_last(), ","@) + ","@
                + terms.last()
        }),
{
}

} // verus!
