//! The per-request context: method, base path, query parameters, request and
//! response body buffers, and a string scratchpad for handler-to-handler
//! signals. Also the parsing of a transport request summary ("METHOD path")
//! into those parts, by naive `?`/`&`/`=` splitting with no percent-decoding.
use crate::http::Method;
use crate::kv::KvList;
use vstd::prelude::*;

verus! {

broadcast use vstd::string::group_string_axioms;

/// Length of the leading run of characters whose equality with `c` matches
/// `while_eq`: with `while_eq == false` this is the length of the prefix
/// before the first `c`, with `while_eq == true` the length of the leading
/// run of `c` itself.
pub open spec fn scan_len(s: Seq<char>, c: char, while_eq: bool) -> int
    decreases s.len(),
{
    if s.len() == 0 {
        0
    } else if (s[0] == c) == while_eq {
        1 + scan_len(s.drop_first(), c, while_eq)
    } else {
        0
    }
}

/// `scan_len` is bounded by the length, everything before it scans, and the
/// character at it (if any) does not.
pub proof fn lemma_scan_len(s: Seq<char>, c: char, while_eq: bool)
    ensures
        0 <= scan_len(s, c, while_eq) <= s.len(),
        forall|j: int| 0 <= j < scan_len(s, c, while_eq) ==> ((s[j] == c) == while_eq),
        scan_len(s, c, while_eq) < s.len() ==> ((s[scan_len(s, c, while_eq)] == c) != while_eq),
    decreases s.len(),
{
    if s.len() > 0 && (s[0] == c) == while_eq {
        lemma_scan_len(s.drop_first(), c, while_eq);
        let n = scan_len(s, c, while_eq);
        assert forall|j: int| 0 <= j < n implies ((s[j] == c) == while_eq) by {
            if j > 0 {
                assert(s.drop_first()[j - 1] == s[j]);
            }
        }
        if n < s.len() {
            assert(s.drop_first()[n - 1] == s[n]);
        }
    }
}

/// Any index with the `scan_len` characterization is `scan_len`.
pub proof fn lemma_scan_len_unique(s: Seq<char>, c: char, while_eq: bool, i: int)
    requires
        0 <= i <= s.len(),
        forall|j: int| 0 <= j < i ==> ((s[j] == c) == while_eq),
        i < s.len() ==> ((s[i] == c) != while_eq),
    ensures
        i == scan_len(s, c, while_eq),
    decreases s.len(),
{
    if s.len() > 0 && (s[0] == c) == while_eq {
        lemma_scan_len_unique(s.drop_first(), c, while_eq, i - 1);
    }
}

/// Scans `s` from index `from` while character equality with `c` matches
/// `while_eq`; returns the first index where the scan stops.
pub fn scan(s: &str, from: usize, c: char, while_eq: bool) -> (r: usize)
    requires
        from <= s@.len(),
    ensures
        from <= r <= s@.len(),
        r - from == scan_len(s@.skip(from as int), c, while_eq),
{
    let len = s.unicode_len();
    let mut i: usize = from;
    while i < len && (s.get_char(i) == c) == while_eq
        invariant
            from <= i <= len,
            len == s@.len(),
            forall|j: int| from <= j < i ==> ((s@[j] == c) == while_eq),
        decreases len - i,
    {
        i += 1;
    }
    proof {
        let sub = s@.skip(from as int);
        assert forall|j: int| 0 <= j < i - from implies ((sub[j] == c) == while_eq) by {
            assert(sub[j] == s@[j + from]);
        }
        if (i as int) - (from as int) < sub.len() {
            assert(sub[i - from] == s@[i as int]);
        }
        lemma_scan_len_unique(sub, c, while_eq, i - from);
    }
    i
}

/// The characters of `s` before its first `'?'`; the whole of `s` if it has
/// none. Registration and lookup both index routes by this.
pub open spec fn spec_base_path(s: Seq<char>) -> Seq<char> {
    s.take(scan_len(s, '?', false))
}

/// Strips a query suffix: returns the part of `path` before the first `'?'`.
pub fn base_path_of(path: &str) -> (r: String)
    ensures
        r@ == spec_base_path(path@),
{
    let i = scan(path, 0, '?', false);
    proof {
        assert(path@.skip(0) =~= path@);
        lemma_scan_len(path@, '?', false);
    }
    let r = path.substring_char(0, i).to_owned();
    proof {
        assert(path@.subrange(0, i as int) =~= spec_base_path(path@));
    }
    r
}

/// Splits one `key=value` segment at its first `'='`; a segment without
/// `'='` is a key with an empty value.
pub open spec fn spec_pair(seg: Seq<char>) -> (Seq<char>, Seq<char>) {
    let p = scan_len(seg, '=', false);
    (seg.take(p), if p < seg.len() { seg.skip(p + 1) } else { Seq::<char>::empty() })
}

/// The parameter map of a raw query string: segments split at `'&'`, each
/// split at its first `'='`, a later duplicate key overwriting an earlier
/// one. Even an empty query names the one pair `("", "")`.
pub open spec fn spec_params(q: Seq<char>) -> Map<Seq<char>, Seq<char>>
    decreases q.len(),
    via spec_params_decreases
{
    let p = scan_len(q, '&', false);
    let kv = spec_pair(q.take(p));
    if p == q.len() {
        Map::empty().insert(kv.0, kv.1)
    } else {
        Map::empty().insert(kv.0, kv.1).union_prefer_right(spec_params(q.skip(p + 1)))
    }
}

#[via_fn]
proof fn spec_params_decreases(q: Seq<char>) {
    lemma_scan_len(q, '&', false);
}

/// The overwrite-join of a collected store and a still-to-come map: entries
/// of `rest` win, and stored values are taken by view.
pub open spec fn view_join(
    done: Map<Seq<char>, String>,
    rest: Map<Seq<char>, Seq<char>>,
) -> Map<Seq<char>, Seq<char>> {
    Map::new(
        |k: Seq<char>| done.contains_key(k) || rest.contains_key(k),
        |k: Seq<char>|
            if rest.contains_key(k) {
                rest[k]
            } else {
                done[k]@
            },
    )
}

/// A collected store matches a character-level map entry for entry.
pub open spec fn params_match(done: Map<Seq<char>, String>, m: Map<Seq<char>, Seq<char>>) -> bool {
    done.dom() == m.dom() && forall|k: Seq<char>| #[trigger]
        done.contains_key(k) ==> done[k]@ == m[k]
}

/// Splits one query segment into its key and value.
fn split_pair(seg: &str) -> (r: (String, String))
    ensures
        (r.0@, r.1@) == spec_pair(seg@),
{
    proof {
        assert(seg@.skip(0) =~= seg@);
        lemma_scan_len(seg@, '=', false);
    }
    let len = seg.unicode_len();
    let p = scan(seg, 0, '=', false);
    let key = seg.substring_char(0, p).to_owned();
    let value = if p < len {
        seg.substring_char(p + 1, len).to_owned()
    } else {
        String::new()
    };
    proof {
        assert(key@ =~= spec_pair(seg@).0);
        assert(value@ =~= spec_pair(seg@).1);
    }
    (key, value)
}

/// Parses a raw query string (the part after `'?'`, before any `'#'`) into
/// its parameter map.
pub fn parse_query(q: &str) -> (r: KvList<String>)
    ensures
        r.wf(),
        params_match(r@, spec_params(q@)),
{
    let len = q.unicode_len();
    let mut params: KvList<String> = KvList::new();
    let mut pos: usize = 0;
    proof {
        assert(q@.skip(0) =~= q@);
        assert(view_join(params@, spec_params(q@)) =~= spec_params(q@));
    }
    loop
        invariant
            pos <= len,
            len == q@.len(),
            params.wf(),
            view_join(params@, spec_params(q@.skip(pos as int))) == spec_params(q@),
        decreases len - pos,
    {
        let ghost rest = q@.skip(pos as int);
        let amp = scan(q, pos, '&', false);
        let ghost p = amp - pos as int;
        let ghost kv = spec_pair(rest.take(p));
        let seg = q.substring_char(pos, amp).to_owned();
        proof {
            assert(seg@ =~= rest.take(p));
        }
        let (key, value) = split_pair(seg.as_str());
        let ghost before = params@;
        params.set(key, value);
        if amp == len {
            proof {
                assert(spec_params(rest) == Map::empty().insert(kv.0, kv.1));
                assert(params@ == before.insert(kv.0, value));
                assert(params@.dom() =~= spec_params(q@).dom()) by {
                    assert(view_join(before, spec_params(rest)).dom() =~= spec_params(q@).dom());
                }
                assert forall|k: Seq<char>| #[trigger] params@.contains_key(k) implies params@[k]@
                    == spec_params(q@)[k] by {
                    assert(view_join(before, spec_params(rest))[k] == spec_params(q@)[k]);
                }
                assert(params_match(params@, spec_params(q@)));
            }
            return params;
        }
        proof {
            let rest2 = q@.skip(amp + 1);
            assert(rest.skip(p + 1) =~= rest2);
            assert(spec_params(rest) == Map::empty().insert(kv.0, kv.1).union_prefer_right(
                spec_params(rest2),
            ));
            assert(params@ == before.insert(kv.0, value));
            assert(view_join(params@, spec_params(rest2)) =~= view_join(
                before,
                spec_params(rest),
            ));
        }
        pos = amp + 1;
    }
}

/// Character-for-character string equality.
pub fn str_eq(a: &str, b: &str) -> (r: bool)
    ensures
        r == (a@ == b@),
{
    let alen = a.unicode_len();
    let blen = b.unicode_len();
    if alen != blen {
        return false;
    }
    let mut i: usize = 0;
    while i < alen
        invariant
            i <= alen,
            alen == a@.len(),
            alen == b@.len(),
            forall|j: int| 0 <= j < i ==> a@[j] == b@[j],
        decreases alen - i,
    {
        if a.get_char(i) != b.get_char(i) {
            return false;
        }
        i += 1;
    }
    proof {
        assert(a@ =~= b@);
    }
    true
}

/// The method named by a request-summary token.
pub open spec fn spec_method_of(tok: Seq<char>) -> Option<Method> {
    if tok == "POST"@ {
        Some(Method::Post)
    } else if tok == "GET"@ {
        Some(Method::Get)
    } else if tok == "PUT"@ {
        Some(Method::Put)
    } else if tok == "DELETE"@ {
        Some(Method::Delete)
    } else if tok == "OPTIONS"@ {
        Some(Method::Options)
    } else {
        None
    }
}

/// Parses a method token.
pub fn parse_method(tok: &str) -> (r: Option<Method>)
    ensures
        r == spec_method_of(tok@),
{
    if str_eq(tok, "POST") {
        Some(Method::Post)
    } else if str_eq(tok, "GET") {
        Some(Method::Get)
    } else if str_eq(tok, "PUT") {
        Some(Method::Put)
    } else if str_eq(tok, "DELETE") {
        Some(Method::Delete)
    } else if str_eq(tok, "OPTIONS") {
        Some(Method::Options)
    } else {
        None
    }
}

/// `t` with every trailing comma removed.
pub open spec fn spec_trim_commas(t: Seq<char>) -> Seq<char>
    decreases t.len(),
{
    if t.len() > 0 && t.last() == ',' {
        spec_trim_commas(t.drop_last())
    } else {
        t
    }
}

proof fn lemma_trim_commas(t: Seq<char>, e: int)
    requires
        0 <= e <= t.len(),
        forall|j: int| e <= j < t.len() ==> t[j] == ',',
        e > 0 ==> t[e - 1] != ',',
    ensures
        spec_trim_commas(t) == t.take(e),
    decreases t.len(),
{
    if t.len() > 0 && t.last() == ',' {
        assert(e < t.len());
        lemma_trim_commas(t.drop_last(), e);
        assert(t.drop_last().take(e) =~= t.take(e));
    } else {
        assert(e == t.len());
        assert(t.take(e) =~= t);
    }
}

/// Removes every trailing comma.
pub fn trim_commas(t: &str) -> (r: String)
    ensures
        r@ == spec_trim_commas(t@),
{
    let len = t.unicode_len();
    let mut e: usize = len;
    while e > 0 && t.get_char(e - 1) == ','
        invariant
            e <= len,
            len == t@.len(),
            forall|j: int| e <= j < len ==> t@[j] == ',',
        decreases e,
    {
        e -= 1;
    }
    proof {
        lemma_trim_commas(t@, e as int);
    }
    let r = t.substring_char(0, e).to_owned();
    proof {
        assert(t@.subrange(0, e as int) =~= t@.take(e as int));
    }
    r
}

/// The bounds of the first two space-separated tokens of `s`:
/// `(start1, end1, start2, end2)`.
pub open spec fn spec_token_bounds(s: Seq<char>) -> (int, int, int, int) {
    let i0 = scan_len(s, ' ', true);
    let i1 = i0 + scan_len(s.skip(i0), ' ', false);
    let i2 = i1 + scan_len(s.skip(i1), ' ', true);
    let i3 = i2 + scan_len(s.skip(i2), ' ', false);
    (i0, i1, i2, i3)
}

/// A request summary is valid when it holds at least a method token and a
/// path token.
pub open spec fn spec_summary_valid(s: Seq<char>) -> bool {
    let (i0, i1, i2, i3) = spec_token_bounds(s);
    i1 > i0 && i3 > i2
}

/// The method token of a request summary.
pub open spec fn spec_method_token(s: Seq<char>) -> Seq<char> {
    let (i0, i1, _, _) = spec_token_bounds(s);
    s.subrange(i0, i1)
}

/// The path token of a request summary, trailing commas removed.
pub open spec fn spec_path_token(s: Seq<char>) -> Seq<char> {
    let (_, _, i2, i3) = spec_token_bounds(s);
    spec_trim_commas(s.subrange(i2, i3))
}

/// The raw query string carried by a path: the part after the first `'?'`
/// and before the next `'#'`; absent when the path has no `'?'`.
pub open spec fn spec_query_of(t: Seq<char>) -> Option<Seq<char>> {
    let qm = scan_len(t, '?', false);
    if qm == t.len() {
        None
    } else {
        let rest = t.skip(qm + 1);
        Some(rest.take(scan_len(rest, '#', false)))
    }
}

/// The parameter map carried by a path: empty when the path has no query.
pub open spec fn spec_params_of_path(t: Seq<char>) -> Map<Seq<char>, Seq<char>> {
    match spec_query_of(t) {
        Option::None => Map::empty(),
        Option::Some(q) => spec_params(q),
    }
}

/// The method, base path and query parameters extracted from a transport
/// request summary.
#[derive(Debug)]
pub struct RequestSummary {
    pub method: Method,
    pub path: String,
    pub params: KvList<String>,
}

impl RequestSummary {
    pub open spec fn wf(self) -> bool {
        self.params.wf()
    }
}

/// Parses a transport request summary of the shape `"METHOD path ..."` into
/// its method, its base path (query suffix stripped), and its parameter map.
/// Fails when the summary has fewer than two tokens or names an unknown
/// method.
pub fn extract_request_summary(summary: &str) -> (r: Result<RequestSummary, String>)
    ensures
        match r {
            Ok(rs) => {
                &&& rs.wf()
                &&& spec_summary_valid(summary@)
                &&& Some(rs.method) == spec_method_of(spec_method_token(summary@))
                &&& rs.path@ == spec_base_path(spec_path_token(summary@))
                &&& params_match(rs.params@, spec_params_of_path(spec_path_token(summary@)))
            },
            Err(e) => {
                &&& !spec_summary_valid(summary@) || spec_method_of(spec_method_token(summary@))
                    is None
                &&& (e@ == "Invalid request summary"@ <==> !spec_summary_valid(summary@))
            },
        },
{
    proof {
        assert(summary@.skip(0) =~= summary@);
    }
    let i0 = scan(summary, 0, ' ', true);
    let i1 = scan(summary, i0, ' ', false);
    let i2 = scan(summary, i1, ' ', true);
    let i3 = scan(summary, i2, ' ', false);
    if i1 == i0 || i3 == i2 {
        return Err(String::from_str("Invalid request summary"));
    }
    let method_tok = summary.substring_char(i0, i1);
    let path_raw = summary.substring_char(i2, i3);
    proof {
        assert(method_tok@ == spec_method_token(summary@));
        assert(path_raw@ == summary@.subrange(i2 as int, i3 as int));
    }
    let method = match parse_method(method_tok) {
        Some(m) => m,
        None => {
            proof {
                reveal_strlit("Unsupported method");
                reveal_strlit("Invalid request summary");
                assert("Unsupported method"@.len() == 18);
                assert("Invalid request summary"@.len() == 23);
                assert("Unsupported method"@ != "Invalid request summary"@);
                assert(spec_method_of(spec_method_token(summary@)) is None);
                assert(spec_summary_valid(summary@));
            }
            return Err(String::from_str("Unsupported method"));
        },
    };
    let path = trim_commas(path_raw);
    let ghost pt = spec_path_token(summary@);
    let base = base_path_of(path.as_str());
    let plen = path.as_str().unicode_len();
    let qm = scan(path.as_str(), 0, '?', false);
    proof {
        assert(path@.skip(0) =~= path@);
    }
    let params = if qm == plen {
        KvList::<String>::new()
    } else {
        let h = scan(path.as_str(), qm + 1, '#', false);
        let q = path.as_str().substring_char(qm + 1, h);
        proof {
            let rest = pt.skip(qm + 1);
            assert(q@ =~= rest.take(scan_len(rest, '#', false)));
        }
        parse_query(q)
    };
    proof {
        if qm == plen {
            assert(spec_query_of(pt) is None);
            assert(params_match(params@, spec_params_of_path(pt))) by {
                assert(params@.dom() =~= Map::<Seq<char>, Seq<char>>::empty().dom());
            }
        }
    }
    Ok(RequestSummary { method, path: base, params })
}

/// The per-request mutable state threaded through a middleware chain.
pub struct Context {
    pub method: Method,
    pub path: String,
    pub params: KvList<String>,
    pub headers: KvList<String>,
    pub request_body: Vec<u8>,
    pub response_body: Option<Vec<u8>>,
    pub memory: KvList<String>,
}

impl Context {
    /// All three string stores keep their keys unique.
    pub open spec fn wf(self) -> bool {
        self.params.wf() && self.headers.wf() && self.memory.wf()
    }

    /// Builds the context for one request: no response body yet, an empty
    /// scratchpad.
    pub fn new(summary: RequestSummary, headers: KvList<String>, body: Vec<u8>) -> (r: Context)
        requires
            summary.wf(),
            headers.wf(),
        ensures
            r.wf(),
            r.method == summary.method,
            r.path == summary.path,
            r.params == summary.params,
            r.headers == headers,
            r.request_body == body,
            (r.response_body is None),
            r.memory@ == Map::<Seq<char>, String>::empty(),
    {
        Context {
            method: summary.method,
            path: summary.path,
            params: summary.params,
            headers,
            request_body: body,
            response_body: None,
            memory: KvList::new(),
        }
    }

    /// The request method.
    pub fn method(&self) -> (r: Method)
        ensures
            r == self.method,
    {
        self.method
    }

    /// The base path of the request.
    pub fn path(&self) -> (r: &str)
        ensures
            r@ == self.path@,
    {
        self.path.as_str()
    }

    /// Looks up one query parameter.
    pub fn param(&self, key: &String) -> (r: Option<&String>)
        requires
            self.wf(),
        ensures
            match r {
                Some(v) => self.params@.contains_key(key@) && *v == self.params@[key@],
                None => !self.params@.contains_key(key@),
            },
    {
        self.params.get(key)
    }

    /// Looks up one request header by exact name.
    pub fn header(&self, name: &String) -> (r: Option<&String>)
        requires
            self.wf(),
        ensures
            match r {
                Some(v) => self.headers@.contains_key(name@) && *v == self.headers@[name@],
                None => !self.headers@.contains_key(name@),
            },
    {
        self.headers.get(name)
    }

    /// The request body as currently visible to the chain.
    pub fn get_request_body(&self) -> (r: &Vec<u8>)
        ensures
            r == self.request_body,
    {
        &self.request_body
    }

    /// Replaces the request body; later handlers see the new bytes.
    pub fn set_request_body(&mut self, body: Vec<u8>)
        requires
            old(self).wf(),
        ensures
            final(self).wf(),
            *final(self) == (Context { request_body: body, ..*old(self) }),
    {
        self.request_body = body;
    }

    /// The last successful handler's output, if any.
    pub fn get_response_body(&self) -> (r: &Option<Vec<u8>>)
        ensures
            r == self.response_body,
    {
        &self.response_body
    }

    /// Stores a handler's output for later handlers in the same chain.
    pub fn set_response_body(&mut self, body: Vec<u8>)
        requires
            old(self).wf(),
        ensures
            final(self).wf(),
            *final(self) == (Context { response_body: Some(body), ..*old(self) }),
    {
        self.response_body = Some(body);
    }

    /// Reads one scratchpad entry.
    pub fn get(&self, key: &String) -> (r: Option<&String>)
        requires
            self.wf(),
        ensures
            match r {
                Some(v) => self.memory@.contains_key(key@) && *v == self.memory@[key@],
                None => !self.memory@.contains_key(key@),
            },
    {
        self.memory.get(key)
    }

    /// Writes one scratchpad entry, visible to all later handlers.
    pub fn set(&mut self, key: String, value: String)
        requires
            old(self).wf(),
        ensures
            final(self).wf(),
            final(self).memory@ == old(self).memory@.insert(key@, value),
            *final(self) == (Context { memory: final(self).memory, ..*old(self) }),
    {
        self.memory.set(key, value);
    }
}

} // verus!
