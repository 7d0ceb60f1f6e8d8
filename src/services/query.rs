use vstd::prelude::*;

use crate::views::logs::{text_or, LogsQueryParameters, ParamsModel};

verus! {

/// The clause that a document's text must satisfy.
#[derive(Clone, Debug)]
pub enum MatchClause {
    /// Every document matches.
    MatchAll,
    /// The named field must match the pattern, which may hold wildcards.
    Match { field: String, query: String },
}

/// The query document sent to the backend, with the index pattern it targets.
///
/// Documents must satisfy `must` and have a timestamp strictly between
/// `min_timestamp` and `max_timestamp`; at most `size` hits come back, newest
/// first.
#[derive(Clone, Debug)]
pub struct BackendQuery {
    pub index: String,
    pub must: MatchClause,
    pub min_timestamp: String,
    pub max_timestamp: String,
    pub size: u64,
}

/// The content of a `MatchClause`.
pub enum MatchModel {
    MatchAll,
    Match { field: Seq<char>, query: Seq<char> },
}

/// The content of a `BackendQuery`.
pub struct QueryModel {
    pub index: Seq<char>,
    pub must: MatchModel,
    pub min_timestamp: Seq<char>,
    pub max_timestamp: Seq<char>,
    pub size: u64,
}

impl View for MatchClause {
    type V = MatchModel;

    open spec fn view(&self) -> MatchModel {
        match self {
            MatchClause::MatchAll => MatchModel::MatchAll,
            MatchClause::Match { field, query } => MatchModel::Match {
                field: field@,
                query: query@,
            },
        }
    }
}

impl View for BackendQuery {
    type V = QueryModel;

    open spec fn view(&self) -> QueryModel {
        QueryModel {
            index: self.index@,
            must: self.must@,
            min_timestamp: self.min_timestamp@,
            max_timestamp: self.max_timestamp@,
            size: self.size,
        }
    }
}

/// The field of a log document that holds its text.
pub open spec fn message_field() -> Seq<char> {
    "message"@
}

/// A pattern that matches any text containing `t`. Wildcards in `t` itself
/// are kept as they are.
pub open spec fn contains_pattern(t: Seq<char>) -> Seq<char> {
    seq!['*'] + t + seq!['*']
}

/// The match clause for a search text: everything for the empty text, else
/// the message field containing the text.
pub open spec fn match_for(text: Seq<char>) -> MatchModel {
    if text.len() == 0 {
        MatchModel::MatchAll
    } else {
        MatchModel::Match { field: message_field(), query: contains_pattern(text) }
    }
}

/// The query for resolved parameters; a missing search text counts as empty.
pub open spec fn query_for(p: ParamsModel) -> QueryModel
    recommends
        p.is_resolved(),
{
    QueryModel {
        index: p.index->Some_0,
        must: match_for(text_or(p.search_text, Seq::empty())),
        min_timestamp: p.min_timestamp->Some_0,
        max_timestamp: p.max_timestamp->Some_0,
        size: p.size->Some_0,
    }
}

/// The JSON text of a string, quotes and escapes included, as serde_json
/// writes it.
pub uninterp spec fn json_quoted(s: Seq<char>) -> Seq<char>;

/// Relies on serde_json::to_string on a `str`: the JSON string literal of the
/// text. Serialising a string into memory has no failing path.
#[verifier::external_body]
fn json_string(s: &str) -> (r: String)
    ensures
        r@ == json_quoted(s@),
{
    match serde_json::to_string(s) {
        Ok(t) => t,
        Err(_) => String::new(),
    }
}

pub open spec fn digit_char(d: nat) -> char {
    if d == 0 {
        '0'
    } else if d == 1 {
        '1'
    } else if d == 2 {
        '2'
    } else if d == 3 {
        '3'
    } else if d == 4 {
        '4'
    } else if d == 5 {
        '5'
    } else if d == 6 {
        '6'
    } else if d == 7 {
        '7'
    } else if d == 8 {
        '8'
    } else {
        '9'
    }
}

/// The decimal digits of `n`, without leading zeros.
pub open spec fn decimal(n: nat) -> Seq<char>
    decreases n,
{
    if n < 10 {
        seq![digit_char(n)]
    } else {
        decimal(n / 10).push(digit_char(n % 10))
    }
}

fn digit_str(d: u64) -> (r: &'static str)
    requires
        d < 10,
    ensures
        r@ == seq![digit_char(d as nat)],
{
    proof {
        reveal_strlit("0");
        reveal_strlit("1");
        reveal_strlit("2");
        reveal_strlit("3");
        reveal_strlit("4");
        reveal_strlit("5");
        reveal_strlit("6");
        reveal_strlit("7");
        reveal_strlit("8");
        reveal_strlit("9");
    }
    if d == 0 {
        "0"
    } else if d == 1 {
        "1"
    } else if d == 2 {
        "2"
    } else if d == 3 {
        "3"
    } else if d == 4 {
        "4"
    } else if d == 5 {
        "5"
    } else if d == 6 {
        "6"
    } else if d == 7 {
        "7"
    } else if d == 8 {
        "8"
    } else {
        "9"
    }
}

/// Appends the decimal digits of `n` to `out`.
fn append_decimal(out: &mut String, n: u64)
    ensures
        final(out)@ == old(out)@ + decimal(n as nat),
    decreases n,
{
    if n >= 10 {
        append_decimal(out, n / 10);
    }
    out.append(digit_str(n % 10));
    proof {
        if n >= 10 {
            assert(decimal(n as nat) == decimal((n / 10) as nat).push(digit_char((n % 10) as nat)));
        }
    }
    assert(final(out)@ =~= old(out)@ + decimal(n as nat));
}

/// The JSON text of a match clause on a field, from the JSON texts of the
/// field's name and of the pattern.
pub open spec fn match_document(field_json: Seq<char>, query_json: Seq<char>) -> Seq<char> {
    "{\"match\":{"@ + field_json + ":{\"query\":"@ + query_json + "}}}"@
}

/// The JSON text of a match clause.
pub open spec fn match_json(m: MatchModel) -> Seq<char> {
    match m {
        MatchModel::MatchAll => "{\"match_all\":{}}"@,
        MatchModel::Match { field, query } => match_document(json_quoted(field), json_quoted(query)),
    }
}

/// The JSON text of a query document from the JSON texts of its match
/// clause and of its two timestamp bounds: the match clause as `must`, the
/// open timestamp range as the one `filter`, the size, and a descending sort
/// on the timestamp.
pub open spec fn query_document(
    must_json: Seq<char>,
    min_json: Seq<char>,
    max_json: Seq<char>,
    size: u64,
) -> Seq<char> {
    "{\"query\":{\"bool\":{\"must\":"@ + must_json
        + ",\"filter\":[{\"range\":{\"timestamp\":{\"gt\":"@ + min_json + ",\"lt\":"@
        + max_json + "}}}]}},\"size\":"@ + decimal(size as nat)
        + ",\"sort\":[{\"timestamp\":{\"order\":\"desc\"}}]}"@
}

/// The JSON text of a query document.
pub open spec fn query_json(q: QueryModel) -> Seq<char> {
    query_document(match_json(q.must), json_quoted(q.min_timestamp), json_quoted(q.max_timestamp), q.size)
}

/// Assembles the JSON text of a match clause from the JSON texts of the
/// field's name and of the pattern.
pub fn assemble_match(field_json: &str, query_json: &str) -> (r: String)
    ensures
        r@ == match_document(field_json@, query_json@),
{
    let mut out = String::from_str("{\"match\":{");
    out.append(field_json);
    out.append(":{\"query\":");
    out.append(query_json);
    out.append("}}}");
    assert(out@ =~= match_document(field_json@, query_json@));
    out
}

/// Assembles the JSON text of a query document from the JSON texts of its
/// match clause and of its two timestamp bounds, and its size.
pub fn assemble_query(must_json: &str, min_json: &str, max_json: &str, size: u64) -> (r: String)
    ensures
        r@ == query_document(must_json@, min_json@, max_json@, size),
{
    let mut out = String::from_str("{\"query\":{\"bool\":{\"must\":");
    out.append(must_json);
    out.append(",\"filter\":[{\"range\":{\"timestamp\":{\"gt\":");
    out.append(min_json);
    out.append(",\"lt\":");
    out.append(max_json);
    out.append("}}}]}},\"size\":");
    append_decimal(&mut out, size);
    out.append(",\"sort\":[{\"timestamp\":{\"order\":\"desc\"}}]}");
    assert(out@ =~= query_document(must_json@, min_json@, max_json@, size));
    out
}

/// Without search text, or with the empty one, the query matches every
/// document: its match clause is match-all.
pub proof fn lemma_empty_text_matches_all(p: ParamsModel)
    requires
        p.is_resolved(),
        p.search_text is None || p.search_text->Some_0.len() == 0,
    ensures
        query_for(p).must == MatchModel::MatchAll,
{
}

/// With a non-empty search text the query matches the message field against
/// the text with a wildcard on each side, and nothing else.
pub proof fn lemma_text_matches_message(p: ParamsModel)
    requires
        p.is_resolved(),
        p.search_text is Some,
        p.search_text->Some_0.len() > 0,
    ensures
        query_for(p).must == (MatchModel::Match {
            field: message_field(),
            query: seq!['*'] + p.search_text->Some_0 + seq!['*'],
        }),
{
}

impl MatchClause {
    /// The match clause for a search text: match-all for the empty text, else
    /// a match of `*text*` on the message field, the text left unescaped.
    pub fn for_text(text: &str) -> (r: MatchClause)
        ensures
            r@ == match_for(text@),
    {
        if text.is_empty() {
            MatchClause::MatchAll
        } else {
            let mut query = String::from_str("*");
            query.append(text);
            query.append("*");
            proof {
                reveal_strlit("*");
            }
            assert(query@ =~= contains_pattern(text@));
            MatchClause::Match { field: "message".to_string(), query }
        }
    }

    /// The JSON text of the clause.
    pub fn to_json(&self) -> (r: String)
        ensures
            r@ == match_json(self@),
    {
        match self {
            MatchClause::MatchAll => String::from_str("{\"match_all\":{}}"),
            MatchClause::Match { field, query } => {
                let field_json = json_string(field.as_str());
                let query_json = json_string(query.as_str());
                assemble_match(field_json.as_str(), query_json.as_str())
            },
        }
    }
}

impl BackendQuery {
    /// Builds the query for resolved parameters.
    pub fn from_params(params: &LogsQueryParameters) -> (r: BackendQuery)
        requires
            params@.is_resolved(),
        ensures
            r@ == query_for(params@),
    {
        let must = match &params.search_text {
            Some(t) => MatchClause::for_text(t.as_str()),
            None => MatchClause::for_text(""),
        };
        proof {
            reveal_strlit("");
        }
        let index = params.index.as_ref().unwrap().clone();
        let min_timestamp = params.min_timestamp.as_ref().unwrap().clone();
        let max_timestamp = params.max_timestamp.as_ref().unwrap().clone();
        let size = params.size.unwrap();
        BackendQuery { index, must, min_timestamp, max_timestamp, size }
    }

    /// The JSON text of the query document.
    pub fn to_json(&self) -> (r: String)
        ensures
            r@ == query_json(self@),
    {
        let must_json = self.must.to_json();
        let min_json = json_string(self.min_timestamp.as_str());
        let max_json = json_string(self.max_timestamp.as_str());
        assemble_query(must_json.as_str(), min_json.as_str(), max_json.as_str(), self.size)
    }
}

} // verus!
