use vstd::prelude::*;
use crate::headers::{header_removed, remove_header, unique_names};
use crate::json::{
    field, find_member, flag_or, get_bool, get_str, get_str_h, has_member, member, text_or_empty,
    JsonValue,
};
use crate::text::{blank, is_blank, join};
use crate::url::pairs_view;

verus! {

/// What serde_json writes for the string `s`: a JSON string literal.
pub uninterp spec fn json_string(s: Seq<char>) -> Seq<char>;

/// Relies on `serde_json::to_string` on a `&str`, which writes it as a JSON
/// string literal and cannot fail on one.
#[verifier::external_body]
fn json_quote(s: &str) -> (r: String)
    ensures
        r@ == json_string(s@),
{
    serde_json::to_string(s).unwrap_or_default()
}

/// The media type that `mime_guess` gives first for the extension of `path`.
pub uninterp spec fn guessed_mime(path: Seq<char>) -> Option<Seq<char>>;

/// Relies on `mime_guess::from_path(..).first()`: the first media type known
/// for the file's extension, written as its essence (`type/subtype`).
#[verifier::external_body]
fn guess_mime(path: &str) -> (r: Option<String>)
    ensures
        match r {
            Some(m) => guessed_mime(path@) == Some(m@),
            None => guessed_mime(path@) is None,
        },
{
    mime_guess::from_path(path).first().map(|m| m.essence_str().to_string())
}

/// The last component of `path`, as `Path::file_name` finds it (lossily
/// decoded); empty when there is none.
pub uninterp spec fn base_name(path: Seq<char>) -> Seq<char>;

/// Relies on `std::path::Path::file_name`.
#[verifier::external_body]
fn file_name(path: &str) -> (r: String)
    ensures
        r@ == base_name(path@),
{
    std::path::Path::new(path).file_name().unwrap_or_default().to_string_lossy().to_string()
}

/// A GraphQL document as JSON: the query as a string member, and the variables,
/// already JSON text, as they are, left out when they are blank.
pub open spec fn graphql_text(quoted_query: Seq<char>, variables: Seq<char>) -> Seq<char> {
    if blank(variables) {
        "{\"query\":"@ + quoted_query + "}"@
    } else {
        "{\"query\":"@ + quoted_query + ",\"variables\":"@ + variables + "}"@
    }
}

/// Frames a GraphQL body from the query already written as a JSON string and the variables.
pub fn graphql_body(quoted_query: &str, variables: &str) -> (r: String)
    ensures
        r@ == graphql_text(quoted_query@, variables@),
{
    proof {
        reveal_strlit("{\"query\":");
        reveal_strlit("}");
        reveal_strlit(",\"variables\":");
    }
    let head = join("{\"query\":", quoted_query);
    if is_blank(variables) {
        head.concat("}")
    } else {
        head.concat(",\"variables\":").concat(variables).concat("}")
    }
}

/// The GraphQL body of a query and its variables.
pub fn build_graphql_body(query: &str, variables: &str) -> (r: String)
    ensures
        r@ == graphql_text(json_string(query@), variables@),
{
    let quoted = json_quote(query);
    graphql_body(quoted.as_str(), variables)
}

/// The media type used when none is given and none can be guessed.
pub open spec fn octet_stream() -> Seq<char> {
    "application/octet-stream"@
}

/// Media type of a part: the one given, else for a file the guessed one or
/// `application/octet-stream`, else none.
pub open spec fn part_mime_of(content_type: Seq<char>, file: Seq<char>, guessed: Option<Seq<char>>) -> Option<Seq<char>> {
    if content_type.len() > 0 {
        Some(content_type)
    } else if file.len() > 0 {
        match guessed {
            Some(m) => Some(m),
            None => Some(octet_stream()),
        }
    } else {
        None
    }
}

/// Chooses the media type of a part from what was given and what was guessed for its file.
pub fn part_mime(content_type: &str, file: &str, guessed: Option<String>) -> (r: Option<String>)
    ensures
        r matches Some(m) ==> part_mime_of(
            content_type@,
            file@,
            match guessed {
                Some(g) => Some(g@),
                None => None,
            },
        ) == Some(m@),
        r is None ==> part_mime_of(
            content_type@,
            file@,
            match guessed {
                Some(g) => Some(g@),
                None => None,
            },
        ) is None,
{
    proof {
        reveal_strlit("application/octet-stream");
    }
    if !content_type.is_empty() {
        Some(content_type.to_owned())
    } else if !file.is_empty() {
        match guessed {
            Some(m) => Some(m),
            None => Some("application/octet-stream".to_owned()),
        }
    } else {
        None
    }
}

/// The entries of a form: the items of an array, none for any other value.
pub open spec fn form_entries(v: Option<JsonValue>) -> Seq<JsonValue> {
    match v {
        Some(JsonValue::Array(a)) => a@,
        _ => Seq::empty(),
    }
}

/// Whether a form entry is used: it is enabled (the default) and has a name.
pub open spec fn keeps_entry(e: JsonValue) -> bool {
    flag_or(field(e, "enabled"@), true) && text_or_empty(field(e, "name"@)).len() > 0
}

/// The name and value of each form entry that is used, in order.
pub open spec fn form_pairs(es: Seq<JsonValue>) -> Seq<(Seq<char>, Seq<char>)>
    decreases es.len(),
{
    if es.len() == 0 {
        Seq::empty()
    } else {
        let rest = form_pairs(es.drop_last());
        let e = es.last();
        if keeps_entry(e) {
            rest.push((text_or_empty(field(e, "name"@)), text_or_empty(field(e, "value"@))))
        } else {
            rest
        }
    }
}

/// Where the content of a part comes from.
#[derive(Debug, Clone)]
pub enum PartSource {
    Text(String),
    File(String),
}

/// One part of a multipart body.
#[derive(Debug, Clone)]
pub struct PartPlan {
    pub name: String,
    pub source: PartSource,
    pub mime: Option<String>,
    pub file_name: Option<String>,
}

/// A part as text: name, whether it is read from a file, the text or path,
/// media type and file name.
pub type PartView = (Seq<char>, bool, Seq<char>, Option<Seq<char>>, Option<Seq<char>>);

pub open spec fn opt_view(o: Option<String>) -> Option<Seq<char>> {
    match o {
        Some(s) => Some(s@),
        None => None,
    }
}

pub open spec fn part_view(p: PartPlan) -> PartView {
    match p.source {
        PartSource::Text(t) => (p.name@, false, t@, opt_view(p.mime), opt_view(p.file_name)),
        PartSource::File(f) => (p.name@, true, f@, opt_view(p.mime), opt_view(p.file_name)),
    }
}

/// The part made of a form entry: a file when it names one, else its value;
/// the media type given, else one guessed from the file's extension; the
/// file's base name as the part's file name.
pub open spec fn part_of(e: JsonValue) -> PartView {
    let file = text_or_empty(field(e, "file"@));
    let value = text_or_empty(field(e, "value"@));
    let ct = text_or_empty(field(e, "contentType"@));
    (
        text_or_empty(field(e, "name"@)),
        file.len() > 0,
        if file.len() > 0 {
            file
        } else {
            value
        },
        part_mime_of(ct, file, guessed_mime(file)),
        if file.len() > 0 {
            Some(base_name(file))
        } else {
            None
        },
    )
}

/// The parts of the form entries that are used, in order.
pub open spec fn form_parts(es: Seq<JsonValue>) -> Seq<PartView>
    decreases es.len(),
{
    if es.len() == 0 {
        Seq::empty()
    } else {
        let rest = form_parts(es.drop_last());
        if keeps_entry(es.last()) {
            rest.push(part_of(es.last()))
        } else {
            rest
        }
    }
}

/// The name and value of each form entry that is used.
pub fn form_params(entries: &Vec<JsonValue>) -> (r: Vec<(String, String)>)
    ensures
        pairs_view(r@) == form_pairs(entries@),
{
    let mut out: Vec<(String, String)> = Vec::new();
    let mut i: usize = 0;
    while i < entries.len()
        invariant
            i <= entries.len(),
            pairs_view(out@) == form_pairs(entries@.subrange(0, i as int)),
        decreases entries.len() - i,
    {
        let e = &entries[i];
        proof {
            assert(entries@.subrange(0, i + 1).drop_last() =~= entries@.subrange(0, i as int));
        }
        let enabled = get_bool(e, "enabled", true);
        let name = get_str(e, "name");
        if enabled && !name.is_empty() {
            let value = get_str(e, "value");
            out.push((name.to_owned(), value.to_owned()));
            proof {
                assert(pairs_view(out@) =~= pairs_view(out@.drop_last()).push((name@, value@)));
            }
        }
        i = i + 1;
    }
    proof {
        assert(entries@.subrange(0, i as int) =~= entries@);
    }
    out
}

/// The part of a form entry.
fn make_part(e: &JsonValue) -> (r: PartPlan)
    ensures
        part_view(r) == part_of(*e),
{
    let name = get_str(e, "name");
    let file = get_str(e, "file");
    let value = get_str(e, "value");
    let content_type = get_str(e, "contentType");
    let guessed = if file.is_empty() {
        None
    } else {
        guess_mime(file)
    };
    let mime = part_mime(content_type, file, guessed);
    if file.is_empty() {
        PartPlan {
            name: name.to_owned(),
            source: PartSource::Text(value.to_owned()),
            mime,
            file_name: None,
        }
    } else {
        PartPlan {
            name: name.to_owned(),
            source: PartSource::File(file.to_owned()),
            mime,
            file_name: Some(file_name(file)),
        }
    }
}

/// The parts of a multipart form.
pub fn multipart_parts(entries: &Vec<JsonValue>) -> (r: Vec<PartPlan>)
    ensures
        r@.map_values(|p: PartPlan| part_view(p)) == form_parts(entries@),
{
    let mut out: Vec<PartPlan> = Vec::new();
    let mut i: usize = 0;
    while i < entries.len()
        invariant
            i <= entries.len(),
            out@.map_values(|p: PartPlan| part_view(p)) == form_parts(entries@.subrange(0, i as int)),
        decreases entries.len() - i,
    {
        let e = &entries[i];
        proof {
            assert(entries@.subrange(0, i + 1).drop_last() =~= entries@.subrange(0, i as int));
        }
        let enabled = get_bool(e, "enabled", true);
        let name = get_str(e, "name");
        if enabled && !name.is_empty() {
            let part = make_part(e);
            out.push(part);
            proof {
                assert(out@.map_values(|p: PartPlan| part_view(p)) =~= out@.drop_last().map_values(
                    |p: PartPlan| part_view(p),
                ).push(part_of(*e)));
            }
        }
        i = i + 1;
    }
    proof {
        assert(entries@.subrange(0, i as int) =~= entries@);
    }
    out
}

/// What a request sends as its body.
#[derive(Debug, Clone)]
pub enum BodyPlan {
    /// No body kind was declared.
    Empty,
    /// A body kind without a handler: the request goes without a body.
    Unsupported(String),
    /// This text as it is.
    Text(String),
    /// These pairs, URL-encoded in order.
    Form(Vec<(String, String)>),
    /// The contents of the file at this path.
    File(String),
    /// A multipart form of these parts.
    Multipart(Vec<PartPlan>),
}

/// Whether `plan` is what a request with body kind `body_type` and body
/// fields `body` sends: the first rule that applies decides.
pub open spec fn plans_body(
    plan: BodyPlan,
    body_type: Option<Seq<char>>,
    body: Seq<(String, JsonValue)>,
) -> bool {
    let has = |k: Seq<char>| member(body, k) is Some;
    let text = |k: Seq<char>| text_or_empty(member(body, k));
    match body_type {
        None => plan is Empty,
        Some(bt) => if bt == "graphql"@ {
            plan matches BodyPlan::Text(s) && s@ == graphql_text(
                json_string(text("query"@)),
                text("variables"@),
            )
        } else if bt == "application/x-www-form-urlencoded"@ && has("form"@) {
            plan matches BodyPlan::Form(ps) && pairs_view(ps@) == form_pairs(
                form_entries(member(body, "form"@)),
            )
        } else if bt == "binary"@ && has("filePath"@) {
            plan matches BodyPlan::File(p) && p@ == text("filePath"@)
        } else if bt == "multipart/form-data"@ && has("form"@) {
            plan matches BodyPlan::Multipart(parts) && parts@.map_values(
                |p: PartPlan| part_view(p),
            ) == form_parts(form_entries(member(body, "form"@)))
        } else if has("text"@) {
            plan matches BodyPlan::Text(s) && s@ == text("text"@)
        } else {
            plan matches BodyPlan::Unsupported(k) && k@ == bt
        },
    }
}

/// The entries of member `key` when it is an array, else none.
fn form_member<'a>(body: &'a Vec<(String, JsonValue)>, key: &str) -> (r: Option<&'a Vec<JsonValue>>)
    ensures
        match r {
            Some(a) => member(body@, key@) == Some(JsonValue::Array(*a)),
            None => !(member(body@, key@) matches Some(JsonValue::Array(_))),
        },
{
    match find_member(body, key) {
        Some(i) => match &body[i].1 {
            JsonValue::Array(a) => Some(a),
            _ => None,
        },
        None => None,
    }
}

/// Decides the body of a request from its declared body kind and body fields.
pub fn build_body(body_type: &Option<String>, body: &Vec<(String, JsonValue)>) -> (r: BodyPlan)
    ensures
        plans_body(r, opt_view(*body_type), body@),
{
    proof {
        reveal_strlit("graphql");
        reveal_strlit("application/x-www-form-urlencoded");
        reveal_strlit("binary");
        reveal_strlit("multipart/form-data");
    }
    match body_type {
        None => BodyPlan::Empty,
        Some(bt) => {
            if *bt == "graphql".to_owned() {
                let query = get_str_h(body, "query");
                let variables = get_str_h(body, "variables");
                BodyPlan::Text(build_graphql_body(query, variables))
            } else if *bt == "application/x-www-form-urlencoded".to_owned() && has_member(
                body,
                "form",
            ) {
                match form_member(body, "form") {
                    Some(a) => BodyPlan::Form(form_params(a)),
                    None => {
                        let ps: Vec<(String, String)> = Vec::new();
                        assert(pairs_view(ps@) =~= Seq::empty());
                        BodyPlan::Form(ps)
                    },
                }
            } else if *bt == "binary".to_owned() && has_member(body, "filePath") {
                BodyPlan::File(get_str_h(body, "filePath").to_owned())
            } else if *bt == "multipart/form-data".to_owned() && has_member(body, "form") {
                match form_member(body, "form") {
                    Some(a) => BodyPlan::Multipart(multipart_parts(a)),
                    None => {
                        let ps: Vec<PartPlan> = Vec::new();
                        assert(ps@.map_values(|p: PartPlan| part_view(p)) =~= Seq::empty());
                        BodyPlan::Multipart(ps)
                    },
                }
            } else if has_member(body, "text") {
                BodyPlan::Text(get_str_h(body, "text").to_owned())
            } else {
                BodyPlan::Unsupported(bt.clone())
            }
        },
    }
}

/// The headers sent with `plan`: a multipart body drops any `content-type`,
/// which the transport writes again with the form's boundary.
pub open spec fn headers_for_body(s: crate::headers::HeaderSeq, plan: BodyPlan) -> crate::headers::HeaderSeq {
    if plan is Multipart {
        header_removed(s, "content-type"@)
    } else {
        s
    }
}

/// Adjusts the outbound headers to the body that is sent.
pub fn fit_headers_to_body(headers: &mut Vec<(String, String)>, plan: &BodyPlan)
    requires
        unique_names(pairs_view(old(headers)@)),
    ensures
        pairs_view(final(headers)@) == headers_for_body(pairs_view(old(headers)@), *plan),
        unique_names(pairs_view(final(headers)@)),
{
    proof {
        reveal_strlit("content-type");
    }
    if let BodyPlan::Multipart(_) = plan {
        remove_header(headers, &"content-type".to_owned());
    }
}

/// A GraphQL body leaves the variables out when they are blank, and otherwise
/// carries them as they are, not written again as a JSON string, right after
/// the `"variables":` key.
pub proof fn graphql_variables_kept_raw(quoted_query: Seq<char>, variables: Seq<char>)
    ensures
        blank(variables) ==> graphql_text(quoted_query, variables) == "{\"query\":"@ + quoted_query
            + "}"@,
        !blank(variables) ==> ({
            let body = graphql_text(quoted_query, variables);
            let start = "{\"query\":"@.len() + quoted_query.len() + ",\"variables\":"@.len();
            &&& body.subrange(start as int, (start + variables.len()) as int) == variables
            &&& body.len() == start + variables.len() + 1
        }),
{
    reveal_strlit("{\"query\":");
    reveal_strlit(",\"variables\":");
    reveal_strlit("}");
    if !blank(variables) {
        let a = "{\"query\":"@ + quoted_query + ",\"variables\":"@;
        assert(graphql_text(quoted_query, variables) =~= a + variables + "}"@);
        assert((a + variables + "}"@).subrange(a.len() as int, (a.len() + variables.len()) as int) =~= variables);
    }
}

/// Every part of a multipart body comes from a form entry that is enabled and
/// named, in the entries' order; and a part read from a file without a given
/// media type has the one guessed from the file's extension, or
/// `application/octet-stream` when none is known.
pub proof fn multipart_parts_from_used_entries(es: Seq<JsonValue>)
    ensures
        form_parts(es).len() <= es.len(),
        forall|i: int|
            #![trigger form_parts(es)[i]]
            0 <= i < form_parts(es).len() ==> exists|j: int|
                0 <= j < es.len() && keeps_entry(es[j]) && form_parts(es)[i] == part_of(es[j]),
        forall|e: JsonValue|
            #![trigger part_of(e)]
            text_or_empty(field(e, "contentType"@)).len() == 0 && text_or_empty(
                field(e, "file"@),
            ).len() > 0 ==> part_of(e).3 == Some(
                match guessed_mime(text_or_empty(field(e, "file"@))) {
                    Some(m) => m,
                    None => octet_stream(),
                },
            ),
    decreases es.len(),
{
    if es.len() > 0 {
        let rest = es.drop_last();
        multipart_parts_from_used_entries(rest);
        assert forall|i: int|
            #![trigger form_parts(es)[i]]
            0 <= i < form_parts(es).len() implies exists|j: int|
                0 <= j < es.len() && keeps_entry(es[j]) && form_parts(es)[i] == part_of(es[j]) by {
            if i < form_parts(rest).len() {
                assert(form_parts(es)[i] == form_parts(rest)[i]);
                let j = choose|j: int|
                    0 <= j < rest.len() && keeps_entry(rest[j]) && form_parts(rest)[i] == part_of(
                        rest[j],
                    );
                assert(rest[j] == es[j]);
            } else {
                let j = es.len() - 1;
                assert(es[j] == es.last());
                assert(keeps_entry(es[j]) && form_parts(es)[i] == part_of(es[j]));
            }
        }
    }
}

} // verus!
