use vstd::prelude::*;
use crate::models::HttpRequestHeader;
use crate::url::pairs_view;

verus! {

/// A header list as text: names are unique, and order is that of a header map.
pub type HeaderSeq = Seq<(Seq<char>, Seq<char>)>;

/// Position of the header named `n`, if any.
pub open spec fn header_index(s: HeaderSeq, n: Seq<char>) -> Option<int>
    decreases s.len(),
{
    if s.len() == 0 {
        None
    } else {
        match header_index(s.drop_last(), n) {
            Some(i) => Some(i),
            None => if s.last().0 == n {
                Some(s.len() - 1)
            } else {
                None
            },
        }
    }
}

/// `s` with header `n` set to `v`: an existing header keeps its place and takes
/// the new value, a new one goes last.
pub open spec fn header_set(s: HeaderSeq, n: Seq<char>, v: Seq<char>) -> HeaderSeq {
    match header_index(s, n) {
        Some(i) => s.update(i, (n, v)),
        None => s.push((n, v)),
    }
}

/// `s` without header `n`: the last header takes its place.
pub open spec fn header_removed(s: HeaderSeq, n: Seq<char>) -> HeaderSeq {
    match header_index(s, n) {
        Some(i) => s.update(i, s.last()).drop_last(),
        None => s,
    }
}

/// No name occurs twice.
pub open spec fn unique_names(s: HeaderSeq) -> bool {
    forall|i: int, j: int| 0 <= i < j < s.len() ==> s[i].0 != s[j].0
}

proof fn lemma_header_index(s: HeaderSeq, n: Seq<char>)
    ensures
        header_index(s, n) matches Some(i) ==> 0 <= i < s.len() && s[i].0 == n,
        header_index(s, n) is None ==> forall|j: int| 0 <= j < s.len() ==> s[j].0 != n,
    decreases s.len(),
{
    if s.len() > 0 {
        lemma_header_index(s.drop_last(), n);
        assert forall|j: int| 0 <= j < s.len() - 1 implies s[j] == s.drop_last()[j] by {}
    }
}

proof fn lemma_header_index_unique(s: HeaderSeq, n: Seq<char>, i: int)
    requires
        unique_names(s),
        0 <= i < s.len(),
        s[i].0 == n,
    ensures
        header_index(s, n) == Some(i),
{
    lemma_header_index(s, n);
}

/// Position of the header named `n` in `list`.
fn find_header(list: &Vec<(String, String)>, n: &String) -> (r: Option<usize>)
    requires
        unique_names(pairs_view(list@)),
    ensures
        match r {
            Some(i) => i < list.len() && header_index(pairs_view(list@), n@) == Some(i as int),
            None => header_index(pairs_view(list@), n@) is None,
        },
{
    proof {
        lemma_header_index(pairs_view(list@), n@);
    }
    let mut i: usize = 0;
    while i < list.len()
        invariant
            i <= list.len(),
            unique_names(pairs_view(list@)),
            header_index(pairs_view(list@), n@) is None ==> forall|j: int|
                0 <= j < list.len() ==> pairs_view(list@)[j].0 != n@,
            forall|j: int| 0 <= j < i ==> pairs_view(list@)[j].0 != n@,
        decreases list.len() - i,
    {
        if list[i].0 == *n {
            proof {
                lemma_header_index_unique(pairs_view(list@), n@, i as int);
            }
            return Some(i);
        }
        i = i + 1;
    }
    proof {
        lemma_header_index(pairs_view(list@), n@);
    }
    None
}

/// Sets header `n` to `v`, as a header map's `insert` does.
pub fn insert_header(list: &mut Vec<(String, String)>, n: String, v: String)
    requires
        unique_names(pairs_view(old(list)@)),
    ensures
        pairs_view(final(list)@) == header_set(pairs_view(old(list)@), n@, v@),
        unique_names(pairs_view(final(list)@)),
{
    proof {
        lemma_header_index(pairs_view(list@), n@);
    }
    match find_header(list, &n) {
        Some(i) => {
            list.set(i, (n, v));
            proof {
                assert(pairs_view(list@) =~= pairs_view(old(list)@).update(i as int, (n@, v@)));
            }
        },
        None => {
            list.push((n, v));
            proof {
                assert(pairs_view(list@) =~= pairs_view(old(list)@).push((n@, v@)));
            }
        },
    }
}

/// Removes header `n`, as a header map's `remove` does.
pub fn remove_header(list: &mut Vec<(String, String)>, n: &String)
    requires
        unique_names(pairs_view(old(list)@)),
    ensures
        pairs_view(final(list)@) == header_removed(pairs_view(old(list)@), n@),
        unique_names(pairs_view(final(list)@)),
{
    match find_header(list, n) {
        Some(i) => {
            let ghost before = pairs_view(list@);
            list.swap_remove(i);
            proof {
                assert(pairs_view(list@) =~= before.update(i as int, before.last()).drop_last());
            }
        },
        None => {},
    }
}

/// The name that `http::HeaderName` makes of `s` (lower case), or `None` when
/// `s` is no valid header name.
pub uninterp spec fn header_name_text(s: Seq<char>) -> Option<Seq<char>>;

/// Relies on `http::HeaderName::from_str`: validates a header name and gives its
/// lower-case form; an empty name is refused.
#[verifier::external_body]
fn header_name(s: &str) -> (r: Option<String>)
    ensures
        match r {
            Some(h) => header_name_text(s@) == Some(h@),
            None => header_name_text(s@) is None,
        },
        s@.len() == 0 ==> r is None,
{
    match <http::HeaderName as std::str::FromStr>::from_str(s) {
        Ok(h) => Some(h.as_str().to_string()),
        Err(_) => None,
    }
}

/// A character that a header value may hold: a tab, or anything from the space
/// on but DEL (every byte of its UTF-8 form is then 32 or more and not 127).
pub open spec fn header_value_char(c: char) -> bool {
    c == '\t' || (' ' <= c && c != '\x7f')
}

pub open spec fn header_value_ok(s: Seq<char>) -> bool {
    forall|i: int| 0 <= i < s.len() ==> header_value_char(#[trigger] s[i])
}

/// Relies on `http::HeaderValue::from_str`, which accepts a text exactly when
/// each of its bytes is a tab or lies in 32..=255 but 127.
#[verifier::external_body]
fn header_value_valid(s: &str) -> (r: bool)
    ensures
        r == header_value_ok(s@),
{
    http::HeaderValue::from_str(s).is_ok()
}

/// The headers every request starts from.
pub open spec fn default_headers() -> HeaderSeq {
    seq![("user-agent"@, "yaak"@), ("accept"@, "*/*"@)]
}

/// Whether a header of the request is sent: it is enabled, not blank in both
/// name and value, and its name and value are valid.
pub open spec fn sends_header(h: HttpRequestHeader) -> bool {
    &&& !(h.name@.len() == 0 && h.value@.len() == 0)
    &&& h.enabled
    &&& header_name_text(h.name@) is Some
    &&& header_value_ok(h.value@)
}

/// The default headers, then each header that is sent, in order; a later one
/// replaces an earlier one of the same name.
pub open spec fn outbound_headers(hs: Seq<HttpRequestHeader>) -> HeaderSeq
    decreases hs.len(),
{
    if hs.len() == 0 {
        default_headers()
    } else {
        let rest = outbound_headers(hs.drop_last());
        let h = hs.last();
        if sends_header(h) {
            header_set(rest, header_name_text(h.name@)->0, h.value@)
        } else {
            rest
        }
    }
}

/// Builds the headers that a request sends.
pub fn request_headers(hs: &Vec<HttpRequestHeader>) -> (r: Vec<(String, String)>)
    ensures
        pairs_view(r@) == outbound_headers(hs@),
        unique_names(pairs_view(r@)),
{
    proof {
        reveal_strlit("user-agent");
        reveal_strlit("yaak");
        reveal_strlit("accept");
        reveal_strlit("*/*");
    }
    let mut out: Vec<(String, String)> = Vec::new();
    out.push(("user-agent".to_owned(), "yaak".to_owned()));
    out.push(("accept".to_owned(), "*/*".to_owned()));
    proof {
        assert(pairs_view(out@) =~= default_headers());
        assert(pairs_view(out@)[0].0.len() != pairs_view(out@)[1].0.len());
    }
    let mut i: usize = 0;
    while i < hs.len()
        invariant
            i <= hs.len(),
            pairs_view(out@) == outbound_headers(hs@.subrange(0, i as int)),
            unique_names(pairs_view(out@)),
        decreases hs.len() - i,
    {
        let h = &hs[i];
        proof {
            assert(hs@.subrange(0, i + 1).drop_last() =~= hs@.subrange(0, i as int));
        }
        let blank = h.name.as_str().is_empty() && h.value.as_str().is_empty();
        if !blank && h.enabled {
            match header_name(h.name.as_str()) {
                Some(n) => {
                    if header_value_valid(h.value.as_str()) {
                        insert_header(&mut out, n, h.value.clone());
                    }
                },
                None => {},
            }
        }
        i = i + 1;
    }
    proof {
        assert(hs@.subrange(0, i as int) =~= hs@);
    }
    out
}

/// `s` with each valid header of `set` set in turn; an invalid name or value is passed over.
pub open spec fn headers_merged(s: HeaderSeq, set: HeaderSeq) -> HeaderSeq
    decreases set.len(),
{
    if set.len() == 0 {
        s
    } else {
        let rest = headers_merged(s, set.drop_last());
        let (n, v) = set.last();
        if header_name_text(n) is Some && header_value_ok(v) {
            header_set(rest, header_name_text(n)->0, v)
        } else {
            rest
        }
    }
}

/// Merges the headers that an authentication step asks for into `list`,
/// overwriting headers of the same name.
pub fn merge_headers(list: &mut Vec<(String, String)>, set: &Vec<(String, String)>)
    requires
        unique_names(pairs_view(old(list)@)),
    ensures
        pairs_view(final(list)@) == headers_merged(pairs_view(old(list)@), pairs_view(set@)),
        unique_names(pairs_view(final(list)@)),
{
    let ghost start = pairs_view(list@);
    let mut i: usize = 0;
    while i < set.len()
        invariant
            i <= set.len(),
            pairs_view(list@) == headers_merged(start, pairs_view(set@.subrange(0, i as int))),
            unique_names(pairs_view(list@)),
        decreases set.len() - i,
    {
        proof {
            assert(pairs_view(set@.subrange(0, i + 1)).drop_last() =~= pairs_view(
                set@.subrange(0, i as int),
            ));
            assert(pairs_view(set@.subrange(0, i + 1)).last() == pairs_view(set@)[i as int]);
        }
        match header_name(set[i].0.as_str()) {
            Some(n) => {
                if header_value_valid(set[i].1.as_str()) {
                    insert_header(list, n, set[i].1.clone());
                }
            },
            None => {},
        }
        i = i + 1;
    }
    proof {
        assert(set@.subrange(0, i as int) =~= set@);
    }
}

} // verus!
