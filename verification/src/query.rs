//! From filters to the text of a search query.

use crate::text::text_of;
use vstd::prelude::*;

verus! {

/// What the user asked to see. Each field narrows the search when present.
#[derive(Clone, Debug, Default)]
pub struct FilterSet {
    pub service: Option<String>,
    pub source: Option<String>,
    pub host: Option<String>,
    pub raw_query: Option<String>,
}

/// The contents of a [`FilterSet`].
pub struct FilterSetModel {
    pub service: Option<Seq<char>>,
    pub source: Option<Seq<char>>,
    pub host: Option<Seq<char>>,
    pub raw_query: Option<Seq<char>>,
}

impl View for FilterSet {
    type V = FilterSetModel;

    open spec fn view(&self) -> FilterSetModel {
        FilterSetModel {
            service: text_of(self.service),
            source: text_of(self.source),
            host: text_of(self.host),
            raw_query: text_of(self.raw_query),
        }
    }
}

impl FilterSetModel {
    /// No filter is present.
    pub open spec fn is_empty(self) -> bool {
        self.service is None && self.source is None && self.host is None && self.raw_query is None
    }
}

/// The query that matches every log.
pub open spec fn wildcard() -> Seq<char> {
    seq!['*']
}

/// What stands before the value in the clause for a service.
pub open spec fn service_key() -> Seq<char> {
    seq!['s', 'e', 'r', 'v', 'i', 'c', 'e', ':']
}

/// What stands before the value in the clause for a source.
pub open spec fn source_key() -> Seq<char> {
    seq!['s', 'o', 'u', 'r', 'c', 'e', ':']
}

/// What stands before the value in the clause for a host.
pub open spec fn host_key() -> Seq<char> {
    seq!['h', 'o', 's', 't', ':']
}

/// One clause for a filter that may be absent: `key` directly followed by the
/// value, or nothing.
pub open spec fn clause(key: Seq<char>, value: Option<Seq<char>>) -> Seq<Seq<char>> {
    match value {
        Some(v) => seq![key + v],
        None => seq![],
    }
}

/// The clauses of a query in their fixed order: service, source, host, then
/// the free text as it was given.
pub open spec fn clauses(f: FilterSetModel) -> Seq<Seq<char>> {
    clause(service_key(), f.service) + clause(source_key(), f.source) + clause(
        host_key(),
        f.host,
    ) + clause(Seq::empty(), f.raw_query)
}

/// The parts with one space between each two neighbours.
pub open spec fn joined(parts: Seq<Seq<char>>) -> Seq<char>
    decreases parts.len(),
{
    if parts.len() == 0 {
        Seq::empty()
    } else if parts.len() == 1 {
        parts[0]
    } else {
        joined(parts.drop_last()) + seq![' '] + parts.last()
    }
}

/// The query text for a set of filters.
pub open spec fn query_text(f: FilterSetModel) -> Seq<char> {
    if clauses(f).len() == 0 {
        wildcard()
    } else {
        joined(clauses(f))
    }
}

/// Appending one more part to a joined text.
proof fn lemma_joined_push(parts: Seq<Seq<char>>, part: Seq<char>)
    ensures
        joined(parts.push(part)) == if parts.len() == 0 {
            part
        } else {
            joined(parts) + seq![' '] + part
        },
{
    let extended = parts.push(part);
    assert(extended.last() == part);
    assert(extended.drop_last() =~= parts);
    if parts.len() == 0 {
        assert(extended[0] == part);
    }
}

/// Adds the clause for one filter to the query under construction, and says
/// whether the query has any clause afterwards.
fn push_clause(
    out: &mut String,
    any: bool,
    Ghost(parts): Ghost<Seq<Seq<char>>>,
    key: &str,
    value: &Option<String>,
) -> (any_after: bool)
    requires
        old(out)@ == joined(parts),
        any == (parts.len() > 0),
    ensures
        final(out)@ == joined(parts + clause(key@, text_of(*value))),
        any_after == ((parts + clause(key@, text_of(*value))).len() > 0),
{
    match value {
        Some(v) => {
            proof {
                lemma_joined_push(parts, key@ + v@);
                assert(parts + clause(key@, text_of(*value)) =~= parts.push(key@ + v@));
            }
            if any {
                out.append(" ");
                proof {
                    reveal_strlit(" ");
                    assert(" "@ =~= seq![' ']);
                }
            }
            out.append(key);
            out.append(v.as_str());
            assert(out@ =~= joined(parts.push(key@ + v@)));
            true
        },
        None => {
            assert(parts + clause(key@, text_of(*value)) =~= parts);
            any
        },
    }
}

/// Builds the search query for a set of filters: one `key:value` clause for
/// each filter that is present, in the order service, source, host, then the
/// free text unchanged, with single spaces between them. Without any filter
/// the query is `*`.
pub fn build_query(filters: &FilterSet) -> (query: String)
    ensures
        query@ == query_text(filters@),
        filters@.is_empty() ==> query@ == wildcard(),
{
    proof {
        reveal_strlit("service:");
        reveal_strlit("source:");
        reveal_strlit("host:");
        reveal_strlit("");
        reveal_strlit("*");
        assert("service:"@ =~= service_key());
        assert("source:"@ =~= source_key());
        assert("host:"@ =~= host_key());
        assert(""@ =~= Seq::<char>::empty());
        assert("*"@ =~= wildcard());
    }
    let mut out = String::new();
    let ghost p0: Seq<Seq<char>> = Seq::empty();
    let any = push_clause(&mut out, false, Ghost(p0), "service:", &filters.service);
    let ghost p1 = p0 + clause(service_key(), filters@.service);
    let any = push_clause(&mut out, any, Ghost(p1), "source:", &filters.source);
    let ghost p2 = p1 + clause(source_key(), filters@.source);
    let any = push_clause(&mut out, any, Ghost(p2), "host:", &filters.host);
    let ghost p3 = p2 + clause(host_key(), filters@.host);
    let any = push_clause(&mut out, any, Ghost(p3), "", &filters.raw_query);
    proof {
        assert(p0 + clause(service_key(), filters@.service) =~= clause(
            service_key(),
            filters@.service,
        ));
        assert(p3 + clause(Seq::empty(), filters@.raw_query) =~= clauses(filters@));
    }
    if any {
        out
    } else {
        String::from_str("*")
    }
}

/// Filter sets with the same contents give the same query, so building the
/// query for one filter set twice gives the same text both times.
pub proof fn lemma_query_is_a_function(a: FilterSet, b: FilterSet)
    requires
        a@ == b@,
    ensures
        query_text(a@) == query_text(b@),
{
}

/// With every filter present the query reads
/// `service:S source:SRC host:H RAW`.
pub proof fn lemma_query_all_present(f: FilterSetModel)
    requires
        f.service is Some,
        f.source is Some,
        f.host is Some,
        f.raw_query is Some,
    ensures
        query_text(f) == service_key() + f.service->0 + seq![' '] + source_key() + f.source->0
            + seq![' '] + host_key() + f.host->0 + seq![' '] + f.raw_query->0,
{
    let a = service_key() + f.service->0;
    let b = source_key() + f.source->0;
    let c = host_key() + f.host->0;
    let d = f.raw_query->0;
    assert(clauses(f) =~= seq![a, b, c, d]);
    assert(Seq::<char>::empty() + d =~= d);
    lemma_joined_push(seq![], a);
    lemma_joined_push(seq![a], b);
    lemma_joined_push(seq![a, b], c);
    lemma_joined_push(seq![a, b, c], d);
    assert(seq![].push(a) =~= seq![a]);
    assert(seq![a].push(b) =~= seq![a, b]);
    assert(seq![a, b].push(c) =~= seq![a, b, c]);
    assert(seq![a, b, c].push(d) =~= seq![a, b, c, d]);
    assert(query_text(f) =~= a + seq![' '] + b + seq![' '] + c + seq![' '] + d);
}

/// Leaving a filter out removes its clause and nothing else: the clauses of
/// a query are those of the filters that are present, in the fixed order.
pub proof fn lemma_clauses_follow_presence(f: FilterSetModel)
    ensures
        clauses(f).len() == (if f.service is Some { 1int } else { 0 }) + (if f.source is Some {
            1int
        } else {
            0
        }) + (if f.host is Some { 1int } else { 0 }) + (if f.raw_query is Some { 1int } else { 0 }),
        f.is_empty() <==> clauses(f).len() == 0,
        f.is_empty() ==> query_text(f) == wildcard(),
{
}

} // verus!
