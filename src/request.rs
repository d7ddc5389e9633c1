use vstd::prelude::*;
use crate::http::text;
use vstd::string::StringSliceAdditionalSpecFns;

verus! {

/// The length of the white-space character whose UTF-8 encoding starts at `i` in
/// `s`, or 0 where none does. White space is Unicode's: the ASCII tab, line feed,
/// vertical tab, form feed, carriage return and space, and U+0085, U+00A0,
/// U+1680, U+2000 to U+200A, U+2028, U+2029, U+202F, U+205F and U+3000.
pub open spec fn space_len(s: Seq<u8>, i: int) -> int {
    if i < 0 || i >= s.len() {
        0
    } else if (9 <= s[i] <= 13) || s[i] == 32 {
        1
    } else if i + 1 < s.len() && s[i] == 0xC2 && (s[i + 1] == 0x85 || s[i + 1] == 0xA0) {
        2
    } else if i + 2 < s.len() && s[i] == 0xE1 && s[i + 1] == 0x9A && s[i + 2] == 0x80 {
        3
    } else if i + 2 < s.len() && s[i] == 0xE2 && s[i + 1] == 0x80 && ((0x80 <= s[i + 2] <= 0x8A)
        || s[i + 2] == 0xA8 || s[i + 2] == 0xA9 || s[i + 2] == 0xAF) {
        3
    } else if i + 2 < s.len() && s[i] == 0xE2 && s[i + 1] == 0x81 && s[i + 2] == 0x9F {
        3
    } else if i + 2 < s.len() && s[i] == 0xE3 && s[i + 1] == 0x80 && s[i + 2] == 0x80 {
        3
    } else {
        0
    }
}

/// The word `cur` in progress, as a list of zero or one finished words.
pub open spec fn finished(cur: Seq<u8>) -> Seq<Seq<u8>> {
    if cur.len() > 0 {
        seq![cur]
    } else {
        seq![]
    }
}

/// The words of `s` from position `i` on, where `cur` is the part of a word
/// already read before `i`.
pub open spec fn scan_from(s: Seq<u8>, i: int, cur: Seq<u8>) -> Seq<Seq<u8>>
    decreases s.len() - i,
{
    if i < 0 || i >= s.len() {
        finished(cur)
    } else if space_len(s, i) > 0 {
        finished(cur) + scan_from(s, i + space_len(s, i), seq![])
    } else {
        scan_from(s, i + 1, cur.push(s[i]))
    }
}

/// The maximal runs of `s` that hold no white space, in order.
pub open spec fn words(s: Seq<u8>) -> Seq<Seq<u8>> {
    scan_from(s, 0, seq![])
}

/// The three parts of a request line.
pub struct RequestLine {
    pub method: Vec<u8>,
    pub path: Vec<u8>,
    pub version: Vec<u8>,
}

fn space_len_at(s: &[u8], i: usize) -> (r: usize)
    requires
        i < s@.len(),
    ensures
        r == space_len(s@, i as int),
{
    let b = s[i];
    let n = s.len();
    if (9 <= b && b <= 13) || b == 32 {
        1
    } else if n - i > 1 && b == 0xC2 && (s[i + 1] == 0x85 || s[i + 1] == 0xA0) {
        2
    } else if n - i > 2 && b == 0xE1 && s[i + 1] == 0x9A && s[i + 2] == 0x80 {
        3
    } else if n - i > 2 && b == 0xE2 && s[i + 1] == 0x80 && ((0x80 <= s[i + 2] && s[i + 2]
        <= 0x8A) || s[i + 2] == 0xA8 || s[i + 2] == 0xA9 || s[i + 2] == 0xAF) {
        3
    } else if n - i > 2 && b == 0xE2 && s[i + 1] == 0x81 && s[i + 2] == 0x9F {
        3
    } else if n - i > 2 && b == 0xE3 && s[i + 1] == 0x80 && s[i + 2] == 0x80 {
        3
    } else {
        0
    }
}

/// Splits `line` into its words.
pub fn split_words(line: &[u8]) -> (r: Vec<Vec<u8>>)
    ensures
        r@.len() == words(line@).len(),
        forall|j: int| 0 <= j < r@.len() ==> #[trigger] r@[j]@ == words(line@)[j],
{
    let mut done: Vec<Vec<u8>> = Vec::new();
    let ghost finished_words: Seq<Seq<u8>> = seq![];
    let mut cur: Vec<u8> = Vec::new();
    let mut i: usize = 0;
    while i < line.len()
        invariant
            0 <= i <= line@.len(),
            words(line@) == finished_words + scan_from(line@, i as int, cur@),
            done@.len() == finished_words.len(),
            forall|j: int| 0 <= j < done@.len() ==> #[trigger] done@[j]@ == finished_words[j],
        decreases line@.len() - i,
    {
        let k = space_len_at(line, i);
        if k > 0 {
            proof {
                assert(finished_words + (finished(cur@) + scan_from(line@, i + k, seq![]))
                    == (finished_words + finished(cur@)) + scan_from(line@, i + k, seq![]));
            }
            if cur.len() > 0 {
                let w = cur;
                done.push(w);
                proof {
                    finished_words = finished_words + finished(w@);
                }
                cur = Vec::new();
            } else {
                proof {
                    assert(finished_words + finished(cur@) == finished_words);
                }
            }
            proof {
                assert(cur@ == Seq::<u8>::empty());
            }
            i = i + k;
        } else {
            cur.push(line[i]);
            i = i + 1;
        }
    }
    proof {
        assert(scan_from(line@, i as int, cur@) == finished(cur@));
    }
    if cur.len() > 0 {
        let w = cur;
        done.push(w);
        proof {
            finished_words = finished_words + finished(w@);
        }
    } else {
        proof {
            assert(finished_words + finished(cur@) == finished_words);
        }
    }
    proof {
        assert(words(line@) == finished_words);
    }
    done
}

/// Reads the method, path and version from a request line of exactly three words.
pub fn parse_request_line(line: &[u8]) -> (r: Option<RequestLine>)
    ensures
        r is Some <==> words(line@).len() == 3,
        r matches Some(p) ==> p.method@ == words(line@)[0] && p.path@ == words(line@)[1]
            && p.version@ == words(line@)[2],
{
    let mut parts = split_words(line);
    if parts.len() != 3 {
        return None;
    }
    let version = parts.pop().unwrap();
    let path = parts.pop().unwrap();
    let method = parts.pop().unwrap();
    Some(RequestLine { method, path, version })
}

/// Whether `a` and `b` hold the same bytes.
pub fn bytes_eq(a: &[u8], b: &[u8]) -> (r: bool)
    ensures
        r == (a@ == b@),
{
    if a.len() != b.len() {
        return false;
    }
    let mut i: usize = 0;
    while i < a.len()
        invariant
            0 <= i <= a@.len(),
            a@.len() == b@.len(),
            a@.subrange(0, i as int) == b@.subrange(0, i as int),
        decreases a@.len() - i,
    {
        if a[i] != b[i] {
            proof {
                assert(a@[i as int] != b@[i as int]);
            }
            return false;
        }
        proof {
            assert(a@.subrange(0, i as int + 1) == a@.subrange(0, i as int).push(a@[i as int]));
            assert(b@.subrange(0, i as int + 1) == b@.subrange(0, i as int).push(b@[i as int]));
        }
        i = i + 1;
    }
    proof {
        assert(a@.subrange(0, a@.len() as int) == a@);
        assert(b@.subrange(0, b@.len() as int) == b@);
    }
    true
}

/// The path without its query string: everything before the first `?`.
pub open spec fn route_path(s: Seq<u8>) -> Seq<u8> {
    match first_question_mark(s) {
        Some(i) => s.subrange(0, i),
        None => s,
    }
}

/// Index of the first `?` in `s`.
pub open spec fn first_question_mark(s: Seq<u8>) -> Option<int>
    decreases s.len(),
{
    if s.len() == 0 {
        None
    } else if s[0] == 63 {
        Some(0)
    } else {
        match first_question_mark(s.drop_first()) {
            Some(i) => Some(i + 1),
            None => None,
        }
    }
}

/// Splits a request target at its first `?` into the path and the query string.
pub fn split_query(target: &[u8]) -> (r: (Vec<u8>, Option<Vec<u8>>))
    ensures
        r.0@ == route_path(target@),
        r.1 is Some <==> first_question_mark(target@) is Some,
        r.1 matches Some(q) ==> q@ == target@.subrange(
            first_question_mark(target@).unwrap() + 1,
            target@.len() as int,
        ),
{
    let mut path: Vec<u8> = Vec::new();
    let mut i: usize = 0;
    while i < target.len()
        invariant
            0 <= i <= target@.len(),
            path@ == target@.subrange(0, i as int),
            forall|k: int| 0 <= k < i ==> target@[k] != 63,
        decreases target@.len() - i,
    {
        if target[i] == 63 {
            let mut query: Vec<u8> = Vec::new();
            let mut j: usize = i + 1;
            while j < target.len()
                invariant
                    i < j <= target@.len(),
                    query@ == target@.subrange(i as int + 1, j as int),
                decreases target@.len() - j,
            {
                query.push(target[j]);
                proof {
                    assert(target@.subrange(i as int + 1, j as int + 1) == target@.subrange(
                        i as int + 1,
                        j as int,
                    ).push(target@[j as int]));
                }
                j = j + 1;
            }
            proof {
                lemma_first_question_mark(target@, i as int);
            }
            return (path, Some(query));
        }
        path.push(target[i]);
        proof {
            assert(target@.subrange(0, i as int + 1) == target@.subrange(0, i as int).push(
                target@[i as int],
            ));
        }
        i = i + 1;
    }
    proof {
        lemma_no_question_mark(target@);
        assert(target@.subrange(0, target@.len() as int) == target@);
    }
    (path, None)
}

proof fn lemma_first_question_mark(s: Seq<u8>, i: int)
    requires
        0 <= i < s.len(),
        s[i] == 63,
        forall|k: int| 0 <= k < i ==> s[k] != 63,
    ensures
        first_question_mark(s) == Some(i),
    decreases i,
{
    if i > 0 {
        lemma_first_question_mark(s.drop_first(), i - 1);
    }
}

proof fn lemma_no_question_mark(s: Seq<u8>)
    requires
        forall|k: int| 0 <= k < s.len() ==> s[k] != 63,
    ensures
        first_question_mark(s) is None,
    decreases s.len(),
{
    if s.len() > 0 {
        lemma_no_question_mark(s.drop_first());
    }
}


/// The handlers a request can reach.
#[derive(Clone, Copy, Debug, PartialEq, Eq, Structural)]
pub enum Route {
    MainPage,
    Script,
    Stylesheet,
    Update,
    Metadata,
    AlbumArt,
    NotFound,
}

/// The handler for `method` on `target`: the path before any query string must
/// match one of the served pairs exactly, method included.
pub open spec fn route_of(method: Seq<u8>, target: Seq<u8>) -> Route {
    let p = route_path(target);
    if method == text("GET") && p == text("/") {
        Route::MainPage
    } else if method == text("GET") && p == text("/js") {
        Route::Script
    } else if method == text("GET") && p == text("/css") {
        Route::Stylesheet
    } else if method == text("POST") && p == text("/update") {
        Route::Update
    } else if method == text("GET") && p == text("/metadata") {
        Route::Metadata
    } else if method == text("GET") && p == text("/album-art") {
        Route::AlbumArt
    } else {
        Route::NotFound
    }
}

/// Picks the handler for a request.
pub fn route(method: &[u8], target: &[u8]) -> (r: Route)
    ensures
        r == route_of(method@, target@),
{
    let (p, _query) = split_query(target);
    let p = p.as_slice();
    let get = bytes_eq(method, "GET".as_bytes());
    if get && bytes_eq(p, "/".as_bytes()) {
        Route::MainPage
    } else if get && bytes_eq(p, "/js".as_bytes()) {
        Route::Script
    } else if get && bytes_eq(p, "/css".as_bytes()) {
        Route::Stylesheet
    } else if bytes_eq(method, "POST".as_bytes()) && bytes_eq(p, "/update".as_bytes()) {
        Route::Update
    } else if get && bytes_eq(p, "/metadata".as_bytes()) {
        Route::Metadata
    } else if get && bytes_eq(p, "/album-art".as_bytes()) {
        Route::AlbumArt
    } else {
        Route::NotFound
    }
}

/// The handler for a request line, or `None` where the line is not exactly
/// a method, a target and a version.
pub open spec fn request_route_of(line: Seq<u8>) -> Option<Route> {
    if words(line).len() == 3 {
        Some(route_of(words(line)[0], words(line)[1]))
    } else {
        None
    }
}

/// Reads a request line and picks its handler.
pub fn request_route(line: &[u8]) -> (r: Option<Route>)
    ensures
        r == request_route_of(line@),
{
    match parse_request_line(line) {
        Some(req) => Some(route(req.method.as_slice(), req.path.as_slice())),
        None => None,
    }
}

/// A request line of fewer or more than three words reaches no handler, so
/// nothing is answered on it.
pub proof fn lemma_malformed_line_is_refused(line: Seq<u8>)
    requires
        words(line).len() != 3,
    ensures
        request_route_of(line) is None,
{
}

/// Every method and path outside the served pairs falls to the not-found handler.
pub proof fn lemma_unknown_pairs_not_found(method: Seq<u8>, target: Seq<u8>)
    requires
        !(method == text("GET") && (route_path(target) == text("/") || route_path(target)
            == text("/js") || route_path(target) == text("/css") || route_path(target) == text(
            "/metadata",
        ) || route_path(target) == text("/album-art"))),
        !(method == text("POST") && route_path(target) == text("/update")),
    ensures
        route_of(method, target) == Route::NotFound,
{
}

} // verus!
