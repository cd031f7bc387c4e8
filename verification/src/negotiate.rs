//! Content negotiation: parsing raw header values into known wire-format
//! identifiers and selecting one for the request or the response side.

use vstd::prelude::*;

verus! {

/// A wire format the pipeline can carry. Matching against raw header values
/// is case-insensitive and is delegated to the `simple_serde` crate, which
/// recognizes several aliases for each identifier; emission uses exactly one
/// canonical media-type string per identifier.
#[derive(Clone, Copy, PartialEq, Eq, Structural, Debug)]
pub enum ContentType {
    Bson,
    Json,
    Json5,
    Ron,
    Toml,
    QueryString,
    Yaml,
}

/// The canonical media-type string each wire format is emitted under:
/// exactly one per identifier, however many aliases match it.
pub open spec fn spec_emitted_media_type(ct: ContentType) -> Seq<char> {
    match ct {
        ContentType::Bson => "application/x-bson"@,
        ContentType::Json => "application/json"@,
        ContentType::Json5 => "application/json5"@,
        ContentType::Ron => "application/ron"@,
        ContentType::Toml => "application/toml"@,
        ContentType::QueryString => "application/x-url"@,
        ContentType::Yaml => "application/yaml"@,
    }
}

impl ContentType {
    /// The canonical media-type string this wire format is emitted under.
    pub fn emitted_media_type(&self) -> (r: &'static str)
        ensures
            r@ == spec_emitted_media_type(*self),
    {
        match self {
            ContentType::Bson => "application/x-bson",
            ContentType::Json => "application/json",
            ContentType::Json5 => "application/json5",
            ContentType::Ron => "application/ron",
            ContentType::Toml => "application/toml",
            ContentType::QueryString => "application/x-url",
            ContentType::Yaml => "application/yaml",
        }
    }
}

/// The lowercased form of a string, as `str::to_lowercase` computes it.
pub uninterp spec fn lower_of(s: Seq<char>) -> Seq<char>;

/// The media-type table of `simple_serde::ContentType::try_from`, applied to
/// an already-lowercased value: each supported format is matched by its bare
/// name, its `application/<name>` form, and its `application/x-<name>` form.
pub open spec fn media_type_table(s: Seq<char>) -> Option<ContentType> {
    if s == "bson"@ || s == "application/bson"@ || s == "application/x-bson"@ {
        Some(ContentType::Bson)
    } else if s == "json"@ || s == "application/json"@ || s == "application/x-json"@ {
        Some(ContentType::Json)
    } else if s == "json5"@ || s == "application/json5"@ || s == "application/x-json5"@ {
        Some(ContentType::Json5)
    } else if s == "ron"@ || s == "application/ron"@ || s == "application/x-ron"@ {
        Some(ContentType::Ron)
    } else if s == "toml"@ || s == "application/toml"@ || s == "application/x-toml"@ {
        Some(ContentType::Toml)
    } else if s == "querystring"@ || s == "application/querystring"@
        || s == "application/x-querystring"@ {
        Some(ContentType::QueryString)
    } else if s == "yaml"@ || s == "application/yaml"@ || s == "application/x-yaml"@ {
        Some(ContentType::Yaml)
    } else {
        None
    }
}

/// What parsing one raw header value yields: the value is lowercased and
/// looked up in the media-type table.
pub open spec fn spec_parse_content_type(s: Seq<char>) -> Option<ContentType> {
    media_type_table(lower_of(s))
}

/// Relies on `simple_serde::ContentType::try_from` for `&str`: it lowercases
/// its input with `str::to_lowercase` (named here by `lower_of`) and looks
/// the result up in a fixed media-type table; unknown values are an error.
#[verifier::external_body]
pub(crate) fn parse_media_type(s: &str) -> (r: Option<ContentType>)
    ensures
        r == media_type_table(lower_of(s@)),
{
    match simple_serde::ContentType::try_from(s) {
        Ok(simple_serde::ContentType::Bson) => Some(ContentType::Bson),
        Ok(simple_serde::ContentType::Json) => Some(ContentType::Json),
        Ok(simple_serde::ContentType::Json5) => Some(ContentType::Json5),
        Ok(simple_serde::ContentType::Ron) => Some(ContentType::Ron),
        Ok(simple_serde::ContentType::Toml) => Some(ContentType::Toml),
        Ok(simple_serde::ContentType::QueryString) => Some(ContentType::QueryString),
        Ok(simple_serde::ContentType::Yaml) => Some(ContentType::Yaml),
        Err(_) => None,
    }
}

/// The views of a list of raw header values.
pub open spec fn views_of(values: Seq<String>) -> Seq<Seq<char>> {
    values.map_values(|v: String| v@)
}

/// The negotiated list: every recognized value, in original order.
pub open spec fn spec_negotiate(vs: Seq<Seq<char>>) -> Seq<ContentType>
    decreases vs.len(),
{
    if vs.len() == 0 {
        Seq::empty()
    } else {
        spec_negotiate(vs.drop_last()) + (match spec_parse_content_type(vs.last()) {
            Some(ct) => seq![ct],
            None => Seq::empty(),
        })
    }
}

/// The first recognized value, in original order.
pub open spec fn spec_first_known(vs: Seq<Seq<char>>) -> Option<ContentType>
    decreases vs.len(),
{
    if vs.len() == 0 {
        None
    } else {
        match spec_parse_content_type(vs.first()) {
            Some(ct) => Some(ct),
            None => spec_first_known(vs.drop_first()),
        }
    }
}

/// Parse a list of raw header values into the ordered list of recognized
/// wire formats, dropping unrecognized entries.
pub fn negotiate(values: &Vec<String>) -> (r: Vec<ContentType>)
    ensures
        r@ == spec_negotiate(views_of(values@)),
{
    let ghost vs = views_of(values@);
    let mut r: Vec<ContentType> = Vec::new();
    let mut i: usize = 0;
    while i < values.len()
        invariant
            0 <= i <= values.len(),
            vs == views_of(values@),
            vs.len() == values@.len(),
            r@ == spec_negotiate(vs.take(i as int)),
        decreases values.len() - i,
    {
        proof {
            assert(vs.take(i + 1 as int).drop_last() =~= vs.take(i as int));
            assert(vs.take(i + 1 as int).last() == vs[i as int]);
            assert(vs[i as int] == values@[i as int]@);
        }
        match parse_media_type(values[i].as_str()) {
            Some(ct) => { r.push(ct); },
            None => {},
        }
        i = i + 1;
    }
    proof {
        assert(vs.take(values@.len() as int) =~= vs);
    }
    r
}

/// Pick the wire format of a request body: the first recognized value wins;
/// a body whose type no value declares cannot be read, so an all-unknown or
/// empty list is rejected.
pub fn negotiate_request_content_type(values: &Vec<String>) -> (r: Result<
    ContentType,
    crate::payload_error::PayloadError,
>)
    ensures
        r matches Ok(ct) ==> spec_first_known(views_of(values@)) == Some(ct),
        r matches Err(e) ==> spec_first_known(views_of(values@)) is None
            && e == crate::payload_error::PayloadError::ContentTypeUnrecognized,
{
    match first_known(values) {
        Some(ct) => Ok(ct),
        None => Err(crate::payload_error::PayloadError::ContentTypeUnrecognized),
    }
}

/// Pick the wire format of a response body: the first recognized value wins,
/// and an all-unknown or empty list silently falls back to JSON.
pub fn negotiate_response_content_type(values: &Vec<String>) -> (r: ContentType)
    ensures
        r == (match spec_first_known(views_of(values@)) {
            Some(ct) => ct,
            None => ContentType::Json,
        }),
{
    match first_known(values) {
        Some(ct) => ct,
        None => ContentType::Json,
    }
}

/// The first recognized value of a raw header list, if any.
pub fn first_known(values: &Vec<String>) -> (r: Option<ContentType>)
    ensures
        r == spec_first_known(views_of(values@)),
{
    let ghost vs = views_of(values@);
    proof {
        assert(vs.skip(0) =~= vs);
    }
    let mut i: usize = 0;
    while i < values.len()
        invariant
            0 <= i <= values.len(),
            vs == views_of(values@),
            vs.len() == values@.len(),
            spec_first_known(vs.skip(i as int)) == spec_first_known(vs),
            forall|j: int| 0 <= j < i ==> spec_parse_content_type(#[trigger] vs[j]) is None,
        decreases values.len() - i,
    {
        proof {
            assert(vs.skip(i as int).first() == vs[i as int]);
            assert(vs.skip(i as int).drop_first() =~= vs.skip(i + 1 as int));
            assert(vs[i as int] == values@[i as int]@);
        }
        match parse_media_type(values[i].as_str()) {
            Some(ct) => {
                return Some(ct);
            },
            None => {},
        }
        i = i + 1;
    }
    proof {
        assert(vs.skip(values@.len() as int) =~= Seq::<Seq<char>>::empty());
    }
    None
}

/// First-known selection respects the original order: it succeeds exactly
/// when some value is recognized, and what it returns is the parse of the
/// earliest recognized value, every earlier value being unrecognized.
pub proof fn lemma_first_known_in_order(vs: Seq<Seq<char>>)
    ensures
        (spec_first_known(vs) is Some) <==> (exists|i: int|
            0 <= i < vs.len() && spec_parse_content_type(#[trigger] vs[i]) is Some),
        spec_first_known(vs) matches Some(ct) ==> exists|i: int|
            0 <= i < vs.len() && spec_parse_content_type(#[trigger] vs[i]) == Some(ct)
                && (forall|j: int| 0 <= j < i ==> spec_parse_content_type(#[trigger] vs[j]) is None),
    decreases vs.len(),
{
    if vs.len() > 0 {
        match spec_parse_content_type(vs.first()) {
            Some(ct) => {
                assert(vs[0] == vs.first());
            },
            None => {
                lemma_first_known_in_order(vs.drop_first());
                let rest = vs.drop_first();
                if spec_first_known(vs) is Some {
                    let i = choose|i: int|
                        0 <= i < rest.len() && spec_parse_content_type(#[trigger] rest[i])
                            == Some(spec_first_known(vs)->0) && (forall|j: int|
                            0 <= j < i ==> spec_parse_content_type(#[trigger] rest[j]) is None);
                    assert(vs[i + 1] == rest[i]);
                    assert(forall|j: int| 0 <= j < i + 1 ==> {
                        if j == 0 {
                            spec_parse_content_type(#[trigger] vs[j]) is None
                        } else {
                            vs[j] == rest[j - 1] && spec_parse_content_type(vs[j]) is None
                        }
                    });
                } else {
                    assert(forall|i: int| 0 <= i < vs.len() ==> {
                        if i == 0 {
                            spec_parse_content_type(#[trigger] vs[i]) is None
                        } else {
                            vs[i] == rest[i - 1] && spec_parse_content_type(vs[i]) is None
                        }
                    });
                }
            },
        }
    }
}

/// Negotiation preserves relative order: splitting the raw list anywhere
/// splits the negotiated list at the matching point, so recognized values
/// come out exactly in the order they went in.
pub proof fn lemma_negotiate_preserves_order(a: Seq<Seq<char>>, b: Seq<Seq<char>>)
    ensures
        spec_negotiate(a + b) == spec_negotiate(a) + spec_negotiate(b),
    decreases b.len(),
{
    if b.len() == 0 {
        assert(a + b =~= a);
        assert(spec_negotiate(a) + Seq::<ContentType>::empty() =~= spec_negotiate(a));
    } else {
        lemma_negotiate_preserves_order(a, b.drop_last());
        assert((a + b).drop_last() =~= a + b.drop_last());
        assert((a + b).last() == b.last());
        assert(spec_negotiate(a) + (spec_negotiate(b.drop_last()) + (match spec_parse_content_type(
            b.last(),
        ) {
            Some(ct) => seq![ct],
            None => Seq::<ContentType>::empty(),
        })) =~= (spec_negotiate(a) + spec_negotiate(b.drop_last())) + (
        match spec_parse_content_type(b.last()) {
            Some(ct) => seq![ct],
            None => Seq::<ContentType>::empty(),
        }));
    }
}

/// Negotiation keeps relative order and drops only unrecognized values: the
/// first element of the negotiated list is the first-known selection.
pub proof fn lemma_first_known_heads_negotiated_list(vs: Seq<Seq<char>>)
    ensures
        spec_negotiate(vs).len() == 0 <==> spec_first_known(vs) is None,
        spec_negotiate(vs).len() > 0 ==> spec_first_known(vs) == Some(spec_negotiate(vs)[0]),
    decreases vs.len(),
{
    if vs.len() > 0 {
        lemma_first_known_heads_negotiated_list(vs.drop_last());
        if vs.len() == 1 {
            assert(vs.drop_last() =~= Seq::<Seq<char>>::empty());
            assert(vs.first() == vs.last());
        } else {
            assert(vs.drop_last().first() == vs.first());
            assert(vs.drop_last().drop_first() =~= vs.drop_first().drop_last());
            lemma_first_known_heads_negotiated_list(vs.drop_first());
            lemma_first_known_heads_negotiated_list(vs.drop_first().drop_last());
        }
    }
}

} // verus!
