//! The router: path templates compiled to regular expressions, and the
//! table of routes that turns a request into a message.

use crate::error::{ErrorStatus, WebDriverError, WebDriverResult};
use crate::http::Method;
use crate::pattern::{
    regex_captures, regex_match, regex_new, regex_source, regex_valid, Captures,
};
use crate::protocol::endpoints::{
    routes_of, standard_endpoints, standard_len, standard_table, Endpoint, ExtensionEndpoint,
    Route,
};
use crate::server::message::{http_outcome, Message};
use crate::error::WebDriverErrorView;
use crate::protocol::endpoints::same_endpoint;
use crate::text::{opt_chars, owned, push_char};
use vstd::prelude::*;
use vstd::string::StringExecFns;

verus! {

/// The parts of a text between the occurrences of `sep`: one more than
/// there are occurrences.
pub open spec fn split(s: Seq<char>, sep: char) -> Seq<Seq<char>>
    decreases s.len(),
{
    if s.len() == 0 {
        Seq::empty().push(Seq::empty())
    } else {
        let before = split(s.drop_last(), sep);
        if s.last() == sep {
            before.push(Seq::empty())
        } else {
            before.drop_last().push(before.last().push(s.last()))
        }
    }
}

/// The pattern of one segment of a template: a segment that opens with a
/// brace has to close with one and becomes a named group that takes one or
/// more characters other than `/`; every other segment stands for itself.
pub open spec fn segment_pattern(segment: Seq<char>) -> Option<Seq<char>> {
    if segment.len() > 0 && segment.first() == '{' {
        if segment.last() == '}' {
            Some("(?P<"@ + segment.subrange(1, segment.len() - 1) + ">[^/]+)"@)
        } else {
            None
        }
    } else {
        Some(segment)
    }
}

/// The patterns of the segments with `/` between them; nothing where a
/// segment has no pattern.
pub open spec fn join_patterns(segments: Seq<Seq<char>>) -> Option<Seq<char>>
    decreases segments.len(),
{
    if segments.len() == 0 {
        Some(Seq::empty())
    } else {
        match (join_patterns(segments.drop_last()), segment_pattern(segments.last())) {
            (Some(before), Some(p)) => if segments.len() == 1 {
                Some(p)
            } else {
                Some(before + seq!['/'] + p)
            },
            _ => None,
        }
    }
}

/// The regular expression of a template: anchored at both ends, with the
/// pattern of each segment in between.
pub open spec fn compile_path_spec(path: Seq<char>) -> Option<Seq<char>> {
    match join_patterns(split(path, '/')) {
        Some(joined) => Some(seq!['^'] + joined + seq!['$']),
        None => None,
    }
}

/// A template's regular expression is anchored at both ends: it opens with
/// `^` and closes with `$`.
pub proof fn lemma_anchored(path: Seq<char>)
    requires
        compile_path_spec(path) is Some,
    ensures
        compile_path_spec(path)->0.len() >= 2,
        compile_path_spec(path)->0.first() == '^',
        compile_path_spec(path)->0.last() == '$',
{
}

/// The characters of each part.
pub open spec fn chars_of(parts: Seq<Vec<char>>) -> Seq<Seq<char>> {
    parts.map_values(|p: Vec<char>| p@)
}

/// Where the first segments have no joined pattern, all of them have none.
proof fn lemma_join_prefix(segments: Seq<Seq<char>>, n: int)
    requires
        0 <= n <= segments.len(),
        join_patterns(segments.take(n)) is None,
    ensures
        join_patterns(segments) is None,
    decreases segments.len(),
{
    if n < segments.len() {
        assert(segments.drop_last().take(n) =~= segments.take(n));
        lemma_join_prefix(segments.drop_last(), n);
    } else {
        assert(segments.take(n) =~= segments);
    }
}

fn split_path(path: &str) -> (parts: Vec<Vec<char>>)
    ensures
        chars_of(parts@) == split(path@, '/'),
{
    let n = path.unicode_len();
    let mut done: Vec<Vec<char>> = Vec::new();
    let mut current: Vec<char> = Vec::new();
    let mut i: usize = 0;
    assert(path@.take(0) =~= Seq::empty());
    assert(chars_of(done@).push(current@) =~= Seq::empty().push(Seq::empty()));
    while i < n
        invariant
            i <= n,
            n == path@.len(),
            chars_of(done@).push(current@) == split(path@.take(i as int), '/'),
        decreases n - i,
    {
        let c = path.get_char(i);
        let ghost before = split(path@.take(i as int), '/');
        proof {
            assert(path@.take(i + 1).drop_last() =~= path@.take(i as int));
            assert(path@.take(i + 1).last() == c);
            assert(before.drop_last() =~= chars_of(done@));
            assert(before.last() == current@);
        }
        if c == '/' {
            let ghost old_done = done@;
            done.push(current);
            current = Vec::new();
            assert(chars_of(done@).push(current@) =~= before.push(Seq::empty()));
        } else {
            current.push(c);
            assert(chars_of(done@).push(current@) =~= before.drop_last().push(
                before.last().push(c),
            ));
        }
        i = i + 1;
    }
    assert(path@.take(n as int) =~= path@);
    done.push(current);
    assert(chars_of(done@) =~= split(path@, '/'));
    done
}

/// Appends the characters of `segment` from `from` up to `to`.
fn append_chars(out: &mut String, segment: &Vec<char>, from: usize, to: usize)
    requires
        from <= to <= segment.len(),
    ensures
        final(out)@ == old(out)@ + segment@.subrange(from as int, to as int),
{
    let mut k: usize = from;
    assert(out@ =~= old(out)@ + segment@.subrange(from as int, from as int));
    while k < to
        invariant
            from <= k <= to <= segment.len(),
            out@ == old(out)@ + segment@.subrange(from as int, k as int),
        decreases to - k,
    {
        push_char(out, segment[k]);
        k = k + 1;
        assert(out@ =~= old(out)@ + segment@.subrange(from as int, k as int));
    }
}

/// Appends the pattern of a segment, where it has one.
fn append_segment(out: &mut String, segment: &Vec<char>) -> (ok: bool)
    ensures
        match segment_pattern(segment@) {
            Some(p) => ok && final(out)@ == old(out)@ + p,
            None => !ok && final(out)@ == old(out)@,
        },
{
    let n = segment.len();
    if n > 0 && segment[0] == '{' {
        if segment[n - 1] != '}' {
            return false;
        }
        out.append("(?P<");
        append_chars(out, segment, 1, n - 1);
        out.append(">[^/]+)");
        assert(out@ =~= old(out)@ + ("(?P<"@ + segment@.subrange(1, n - 1) + ">[^/]+)"@));
        true
    } else {
        append_chars(out, segment, 0, n);
        assert(segment@.subrange(0, n as int) =~= segment@);
        true
    }
}

/// The regular expression of a path template, as text; nothing where a
/// segment opens with a brace and does not close with one.
pub fn compile_path(path: &str) -> (r: Option<String>)
    ensures
        opt_chars(r) == compile_path_spec(path@),
{
    let segments = split_path(path);
    let mut out = String::new();
    push_char(&mut out, '^');
    let mut i: usize = 0;
    let ghost all = chars_of(segments@);
    let ghost mut joined: Seq<char> = Seq::empty();
    assert(all.take(0) =~= Seq::empty());
    assert(out@ =~= seq!['^'] + joined);
    while i < segments.len()
        invariant
            i <= segments.len(),
            all == chars_of(segments@),
            all == split(path@, '/'),
            join_patterns(all.take(i as int)) == Some(joined),
            out@ == seq!['^'] + joined,
        decreases segments.len() - i,
    {
        proof {
            assert(all.take(i + 1).drop_last() =~= all.take(i as int));
            assert(all.take(i + 1).last() == segments@[i as int]@);
        }
        if i > 0 {
            push_char(&mut out, '/');
        }
        let ghost before = out@;
        if !append_segment(&mut out, &segments[i]) {
            proof {
                lemma_join_prefix(all, i + 1);
            }
            return None;
        }
        proof {
            let p = segment_pattern(segments@[i as int]@)->0;
            if i == 0 {
                assert(joined =~= Seq::empty());
                assert(out@ =~= seq!['^'] + p);
                joined = p;
            } else {
                assert(out@ =~= seq!['^'] + (joined + seq!['/'] + p));
                joined = joined + seq!['/'] + p;
            }
        }
        i = i + 1;
    }
    assert(all.take(i as int) =~= all);
    push_char(&mut out, '$');
    assert(out@ =~= seq!['^'] + joined + seq!['$']);
    Some(out)
}

/// Why a route cannot be added to a table.
#[derive(Clone, Copy, Debug, PartialEq, Eq, Structural)]
pub enum RouteError {
    /// A segment of the template opens with a brace and does not close with
    /// one.
    InvalidTemplate,
    /// The template's regular expression does not compile.
    InvalidPattern,
}

/// The error, if any, that a template has.
pub open spec fn template_error(path: Seq<char>) -> Option<RouteError> {
    match compile_path_spec(path) {
        None => Some(RouteError::InvalidTemplate),
        Some(p) => if regex_valid(p) {
            None
        } else {
            Some(RouteError::InvalidPattern)
        },
    }
}

/// One compiled route.
pub struct RequestMatcher<U: ExtensionEndpoint> {
    method: Method,
    path_regexp: regex::Regex,
    match_type: Endpoint<U>,
}

pub ghost struct RequestMatcherView<U: ExtensionEndpoint> {
    pub method: Method,
    pub pattern: Seq<char>,
    pub endpoint: Endpoint<U>,
}

impl<U: ExtensionEndpoint> View for RequestMatcher<U> {
    type V = RequestMatcherView<U>;

    closed spec fn view(&self) -> RequestMatcherView<U> {
        RequestMatcherView {
            method: self.method,
            pattern: regex_source(self.path_regexp),
            endpoint: self.match_type,
        }
    }
}

impl<U: ExtensionEndpoint> RequestMatcherView<U> {
    /// Whether a request with this method and path is one for this route.
    pub open spec fn takes(self, method: Method, path: Seq<char>) -> bool {
        self.method == method && regex_match(self.pattern, path) is Some
    }
}

impl<U: ExtensionEndpoint> RequestMatcher<U> {
    /// Compiles a route. It fails where the template has an error.
    pub fn new(method: Method, path: &str, match_type: Endpoint<U>) -> (r: Result<
        RequestMatcher<U>,
        RouteError,
    >)
        ensures
            match r {
                Ok(m) => template_error(path@) is None && m@ == (RequestMatcherView {
                    method,
                    pattern: compile_path_spec(path@)->0,
                    endpoint: match_type,
                }),
                Err(e) => template_error(path@) == Some(e),
            },
    {
        match compile_path(path) {
            Some(pattern) => match regex_new(pattern.as_str()) {
                Ok(path_regexp) => Ok(
                    RequestMatcher { method: method, path_regexp: path_regexp, match_type: match_type },
                ),
                Err(_) => Err(RouteError::InvalidPattern),
            },
            None => Err(RouteError::InvalidTemplate),
        }
    }

    /// Whether the method is this route's, and what the route's pattern
    /// captures in the path.
    pub fn get_match(&self, method: Method, path: &str) -> (r: (bool, Option<Captures>))
        ensures
            r.0 == (method == self@.method),
            match r.1 {
                Some(c) => regex_match(self@.pattern, path@) == Some(c@),
                None => regex_match(self@.pattern, path@) is None,
            },
    {
        let captures = regex_captures(&self.path_regexp, path);
        (method == self.method, captures)
    }

    /// The endpoint that this route leads to.
    pub fn endpoint(&self) -> (e: &Endpoint<U>)
        ensures
            *e == self@.endpoint,
    {
        &self.match_type
    }
}

/// The table of routes, in the order in which they are tried: the standard
/// routes, then those of the extension.
pub struct HttpApi<U: ExtensionEndpoint> {
    routes: Vec<RequestMatcher<U>>,
}

impl<U: ExtensionEndpoint> View for HttpApi<U> {
    type V = Seq<RequestMatcherView<U>>;

    closed spec fn view(&self) -> Seq<RequestMatcherView<U>> {
        self.routes@.map_values(|m: RequestMatcher<U>| m@)
    }
}

/// Whether some route's pattern matches the path, whatever its method.
pub open spec fn path_known<U: ExtensionEndpoint>(
    routes: Seq<RequestMatcherView<U>>,
    path: Seq<char>,
) -> bool {
    exists|i: int| 0 <= i < routes.len() && regex_match((#[trigger] routes[i]).pattern, path) is Some
}

/// Whether the route at `i` is the first that takes the request.
pub open spec fn first_taker<U: ExtensionEndpoint>(
    routes: Seq<RequestMatcherView<U>>,
    i: int,
    method: Method,
    path: Seq<char>,
) -> bool {
    &&& 0 <= i < routes.len()
    &&& routes[i].takes(method, path)
    &&& forall|j: int| 0 <= j < i ==> !(#[trigger] routes[j]).takes(method, path)
}

/// Whether no route takes the request.
pub open spec fn no_taker<U: ExtensionEndpoint>(
    routes: Seq<RequestMatcherView<U>>,
    method: Method,
    path: Seq<char>,
) -> bool {
    forall|j: int| 0 <= j < routes.len() ==> !(#[trigger] routes[j]).takes(method, path)
}

/// The error for a request that no route takes: an unknown method where
/// some route has the path, else an unknown path.
pub open spec fn no_route<U: ExtensionEndpoint>(
    routes: Seq<RequestMatcherView<U>>,
    method: Method,
    path: Seq<char>,
) -> WebDriverErrorView {
    WebDriverErrorView {
        status: if path_known(routes, path) {
            ErrorStatus::UnknownMethod
        } else {
            ErrorStatus::UnknownPath
        },
        message: method.name() + " "@ + path + " did not match a known command"@,
        stacktrace: None,
    }
}

/// A later route cannot take a request away from an earlier one: the
/// first route that takes a request stands at or before every route that
/// takes it. So no route of an extension, which all stand behind the
/// standard routes, is chosen where a standard route takes the request.
pub proof fn lemma_earlier_route_wins<U: ExtensionEndpoint>(
    routes: Seq<RequestMatcherView<U>>,
    first: int,
    other: int,
    method: Method,
    path: Seq<char>,
)
    requires
        first_taker(routes, first, method, path),
        0 <= other < routes.len(),
        routes[other].takes(method, path),
    ensures
        first <= other,
{
}

/// The compiled form of a route whose template has no error.
pub open spec fn compiled<U: ExtensionEndpoint>(
    method: Method,
    path: Seq<char>,
    endpoint: Endpoint<U>,
) -> RequestMatcherView<U> {
    RequestMatcherView { method, pattern: compile_path_spec(path)->0, endpoint }
}

/// The templates of all routes in the order of the table: those of the
/// standard routes, then those of the extension.
pub open spec fn route_templates<U: ExtensionEndpoint>(
    extension_routes: Seq<(Method, &str, U)>,
) -> Seq<Seq<char>> {
    standard_table::<U>().map_values(|r: Route<U>| r.1) + extension_routes.map_values(
        |r: (Method, &str, U)| r.1@,
    )
}

/// Whether the template at `i` is the first with an error, and `e` is its
/// error.
pub open spec fn first_error(templates: Seq<Seq<char>>, i: int, e: RouteError) -> bool {
    &&& 0 <= i < templates.len()
    &&& template_error(templates[i]) == Some(e)
    &&& forall|j: int| 0 <= j < i ==> template_error(#[trigger] templates[j]) is None
}

impl<U: ExtensionEndpoint> HttpApi<U> {
    /// The table of the standard routes and, after them, the given routes
    /// of the extension. It fails with the error of the first route whose
    /// template has one.
    pub fn new(extension_routes: &[(Method, &str, U)]) -> (r: Result<HttpApi<U>, RouteError>)
        ensures
            match r {
                Ok(api) => {
                    &&& api@.len() == standard_len() + extension_routes@.len()
                    &&& forall|i: int|
                        0 <= i < standard_len() ==> {
                            let route = #[trigger] standard_table::<U>()[i];
                            &&& template_error(route.1) is None
                            &&& api@[i] == compiled(route.0, route.1, route.2)
                        }
                    &&& forall|i: int|
                        0 <= i < extension_routes@.len() ==> {
                            let route = #[trigger] extension_routes@[i];
                            let made = api@[standard_len() + i];
                            &&& template_error(route.1@) is None
                            &&& made.method == route.0
                            &&& made.pattern == compile_path_spec(route.1@)->0
                            &&& same_endpoint(Endpoint::Extension(route.2), made.endpoint)
                        }
                },
                Err(e) => exists|i: int| first_error(route_templates::<U>(extension_routes@), i, e),
            },
    {
        let mut rv = HttpApi::<U> { routes: Vec::new() };
        let standard = standard_endpoints::<U>();
        let ghost table = standard_table::<U>();
        proof {
            crate::protocol::endpoints::lemma_standard_routes::<U>(0);
            assert(routes_of(standard@).len() == standard@.len());
        }
        let mut i: usize = 0;
        while i < standard.len()
            invariant
                i <= standard.len(),
                standard@.len() == standard_len(),
                routes_of(standard@) == table,
                table == standard_table::<U>(),
                rv@.len() == i,
                forall|k: int|
                    0 <= k < i ==> {
                        let route = #[trigger] table[k];
                        &&& template_error(route.1) is None
                        &&& rv@[k] == compiled(route.0, route.1, route.2)
                    },
            decreases standard.len() - i,
        {
            assert(table[i as int] == (standard@[i as int].0, standard@[i as int].1@, standard@[i as int].2));
            proof {
                crate::protocol::endpoints::lemma_standard_routes::<U>(i as int);
            }
            let endpoint = standard[i].2.clone();
            match rv.add(standard[i].0, standard[i].1, endpoint) {
                Ok(()) => {},
                Err(e) => {
                    proof {
                        let templates = route_templates::<U>(extension_routes@);
                        assert(templates[i as int] == table[i as int].1);
                        assert forall|j: int| 0 <= j < i implies template_error(
                            #[trigger] templates[j],
                        ) is None by {
                            assert(templates[j] == table[j].1);
                        }
                        assert(first_error(templates, i as int, e));
                    }
                    return Err(e);
                },
            }
            i = i + 1;
        }
        let mut k: usize = 0;
        while k < extension_routes.len()
            invariant
                k <= extension_routes.len(),
                table == standard_table::<U>(),
                rv@.len() == standard_len() + k,
                forall|n: int|
                    0 <= n < standard_len() ==> {
                        let route = #[trigger] table[n];
                        &&& template_error(route.1) is None
                        &&& rv@[n] == compiled(route.0, route.1, route.2)
                    },
                forall|n: int|
                    0 <= n < k ==> {
                        let route = #[trigger] extension_routes@[n];
                        let made = rv@[standard_len() + n];
                        &&& template_error(route.1@) is None
                        &&& made.method == route.0
                        &&& made.pattern == compile_path_spec(route.1@)->0
                        &&& same_endpoint(Endpoint::Extension(route.2), made.endpoint)
                    },
            decreases extension_routes.len() - k,
        {
            let endpoint = Endpoint::Extension(extension_routes[k].2.clone());
            match rv.add(extension_routes[k].0, extension_routes[k].1, endpoint) {
                Ok(()) => {},
                Err(e) => {
                    proof {
                        let templates = route_templates::<U>(extension_routes@);
                        let at = standard_len() + k;
                        assert(templates[at] == extension_routes@[k as int].1@);
                        assert forall|j: int| 0 <= j < at implies template_error(
                            #[trigger] templates[j],
                        ) is None by {
                            if j < standard_len() {
                                assert(templates[j] == table[j].1);
                            } else {
                                assert(templates[j] == extension_routes@[j - standard_len()].1@);
                            }
                        }
                        assert(first_error(templates, at, e));
                    }
                    return Err(e);
                },
            }
            k = k + 1;
        }
        Ok(rv)
    }

    /// Adds a route at the end of the table; a route whose template has an
    /// error is not added.
    pub fn add(&mut self, method: Method, path: &str, match_type: Endpoint<U>) -> (r: Result<
        (),
        RouteError,
    >)
        ensures
            match r {
                Ok(_) => template_error(path@) is None && final(self)@ == old(self)@.push(
                    compiled(method, path@, match_type),
                ),
                Err(e) => template_error(path@) == Some(e) && final(self)@ == old(self)@,
            },
    {
        match RequestMatcher::new(method, path, match_type) {
            Ok(http_matcher) => {
                self.routes.push(http_matcher);
                assert(self@ =~= old(self)@.push(compiled(method, path@, match_type)));
                Ok(())
            },
            Err(e) => Err(e),
        }
    }

    /// The number of routes.
    pub fn len(&self) -> (n: usize)
        ensures
            n == self@.len(),
    {
        self.routes.len()
    }

    /// The message of a request. The first route whose method is the
    /// request's and whose pattern matches the path decides: the message is
    /// the one that `Message::from_http` makes for that route's endpoint,
    /// what the pattern captured, and the body. Where no route takes the
    /// request, the error is `no_route`.
    pub fn decode_request(&self, method: Method, path: &str, body: &str) -> (r: WebDriverResult<
        Message<U>,
    >)
        ensures
            forall|i: int|
                first_taker(self@, i, method, path@) ==> http_outcome(
                    (#[trigger] self@[i]).endpoint,
                    regex_match(self@[i].pattern, path@)->0,
                    body@,
                    r,
                ),
            no_taker(self@, method, path@) ==> (r matches Err(e) && e@ == no_route(
                self@,
                method,
                path@,
            )),
    {
        let mut path_seen = false;
        let mut i: usize = 0;
        while i < self.routes.len()
            invariant
                i <= self.routes.len(),
                self@.len() == self.routes@.len(),
                forall|j: int| 0 <= j < i ==> !(#[trigger] self@[j]).takes(method, path@),
                path_seen == (exists|j: int|
                    0 <= j < i && regex_match((#[trigger] self@[j]).pattern, path@) is Some),
            decreases self.routes.len() - i,
        {
            assert(self@[i as int] == self.routes@[i as int]@);
            let (method_match, captures) = self.routes[i].get_match(method, path);
            match captures {
                Some(found) => {
                    if method_match {
                        let endpoint = self.routes[i].endpoint().clone();
                        let r = Message::from_http(endpoint, &found, body);
                        proof {
                            assert(first_taker(self@, i as int, method, path@));
                            assert forall|n: int| first_taker(self@, n, method, path@) implies n
                                == i by {
                                if n < i {
                                    assert(!self@[n].takes(method, path@));
                                } else if n > i {
                                    assert(self@[i as int].takes(method, path@));
                                }
                            }
                            assert(!no_taker(self@, method, path@));
                        }
                        return r;
                    } else {
                        path_seen = true;
                    }
                },
                None => {},
            }
            i = i + 1;
        }
        let mut message = owned(method.as_str());
        message.append(" ");
        message.append(path);
        message.append(" did not match a known command");
        let status = if path_seen {
            ErrorStatus::UnknownMethod
        } else {
            ErrorStatus::UnknownPath
        };
        assert forall|n: int| !first_taker(self@, n, method, path@) by {
            if 0 <= n < self@.len() {
                assert(!self@[n].takes(method, path@));
            }
        }
        Err(WebDriverError { status: status, message: message, stacktrace: None })
    }
}

} // verus!
