use vstd::prelude::*;
use vstd::string::*;

use crate::app_context::AppContext;

verus! {

/// The HTTP methods a handler entry can bind.
#[derive(Clone, Copy, PartialEq, Eq, Structural, Debug)]
pub enum Method {
    Get,
    Post,
    Put,
    Patch,
    Delete,
    Head,
    Options,
}

/// The segments of `s` between `/` separators, exactly as the raw text
/// gives them: no normalization, so leading, trailing and doubled
/// separators yield empty segments (as `str::split('/')` does).
pub open spec fn split_slash(s: Seq<char>) -> Seq<Seq<char>>
    decreases s.len(),
{
    if s.len() == 0 {
        seq![Seq::<char>::empty()]
    } else if s[0] == '/' {
        seq![Seq::<char>::empty()] + split_slash(s.skip(1))
    } else {
        let rest = split_slash(s.skip(1));
        seq![seq![s[0]] + rest[0]] + rest.skip(1)
    }
}

proof fn lemma_split_slash_len(s: Seq<char>)
    ensures
        split_slash(s).len() >= 1,
    decreases s.len(),
{
    if s.len() != 0 {
        lemma_split_slash_len(s.skip(1));
    }
}

/// Splitting a text without separators yields that text as its only segment.
proof fn lemma_split_slash_no_sep(s: Seq<char>)
    requires
        forall|i: int| 0 <= i < s.len() ==> s[i] != '/',
    ensures
        split_slash(s) =~~= seq![s],
    decreases s.len(),
{
    if s.len() == 0 {
        assert(split_slash(s) =~~= seq![s]);
    } else {
        assert(s[0] != '/');
        lemma_split_slash_no_sep(s.skip(1));
        let rest = split_slash(s.skip(1));
        assert(rest[0] == s.skip(1));
        assert(seq![s[0]] + s.skip(1) =~= s);
        assert(rest.skip(1) =~~= Seq::<Seq<char>>::empty());
        assert(split_slash(s) =~~= seq![s]);
    }
}

/// Splitting `pre ++ "/" ++ suf`, with no separator in `pre`, yields `pre`
/// followed by the segments of `suf`.
proof fn lemma_split_slash_step(pre: Seq<char>, suf: Seq<char>)
    requires
        forall|i: int| 0 <= i < pre.len() ==> pre[i] != '/',
    ensures
        split_slash(pre + seq!['/'] + suf) =~~= seq![pre] + split_slash(suf),
    decreases pre.len(),
{
    let s = pre + seq!['/'] + suf;
    if pre.len() == 0 {
        assert(s[0] == '/');
        assert(s.skip(1) =~= suf);
        assert(split_slash(s) =~~= seq![Seq::<char>::empty()] + split_slash(suf));
        assert(pre =~= Seq::<char>::empty());
    } else {
        assert(s[0] == pre[0]);
        assert(s[0] != '/');
        assert(s.skip(1) =~= pre.skip(1) + seq!['/'] + suf);
        lemma_split_slash_step(pre.skip(1), suf);
        let rest = split_slash(s.skip(1));
        lemma_split_slash_len(suf);
        assert(rest =~~= seq![pre.skip(1)] + split_slash(suf));
        assert(rest[0] == pre.skip(1));
        assert(seq![s[0]] + rest[0] =~= pre);
        assert(rest.skip(1) =~~= split_slash(suf));
        assert(split_slash(s) =~~= seq![pre] + split_slash(suf));
    }
}

/// The views of a vector of owned segments.
pub open spec fn seg_views(v: Seq<String>) -> Seq<Seq<char>> {
    v.map_values(|x: String| x@)
}

/// Split a raw path into its `/`-separated segments.
pub fn split_path(s: &str) -> (segs: Vec<String>)
    ensures
        seg_views(segs@) == split_slash(s@),
{
    let len = s.unicode_len();
    let mut segs: Vec<String> = Vec::new();
    let mut start: usize = 0;
    let mut i: usize = 0;
    proof {
        assert(s@.skip(0) =~= s@);
        assert(seg_views(segs@) =~~= Seq::<Seq<char>>::empty());
    }
    while i < len
        invariant
            start <= i <= len,
            len == s@.len(),
            forall|k: int| start <= k < i ==> s@[k] != '/',
            split_slash(s@) =~~= seg_views(segs@) + split_slash(s@.skip(start as int)),
        decreases len - i,
    {
        if s.get_char(i) == '/' {
            let seg = s.substring_char(start, i).to_owned();
            proof {
                let tail = s@.skip(start as int);
                assert(tail =~= s@.subrange(start as int, i as int) + seq!['/'] + s@.skip(
                    i as int + 1,
                ));
                assert(forall|k: int|
                    0 <= k < (i - start) ==> s@.subrange(start as int, i as int)[k] == s@[k + start]);
                lemma_split_slash_step(s@.subrange(start as int, i as int), s@.skip(i as int + 1));
                assert(seg_views(segs@.push(seg)) =~~= seg_views(segs@) + seq![seg@]);
            }
            segs.push(seg);
            start = i + 1;
        }
        i += 1;
    }
    let last = s.substring_char(start, len).to_owned();
    proof {
        assert(s@.skip(start as int) =~= s@.subrange(start as int, len as int));
        lemma_split_slash_no_sep(s@.skip(start as int));
        assert(seg_views(segs@.push(last)) =~~= seg_views(segs@) + seq![last@]);
    }
    segs.push(last);
    proof {
        assert(seg_views(segs@) =~~= split_slash(s@));
    }
    segs
}

/// A pattern segment such as `{id}` that captures one path segment.
pub open spec fn is_param_seg(seg: Seq<char>) -> bool {
    seg.len() >= 2 && seg[0] == '{' && seg[seg.len() - 1] == '}'
}

/// The name between the braces of a parameter segment.
pub open spec fn param_name(seg: Seq<char>) -> Seq<char> {
    seg.subrange(1, seg.len() - 1)
}

/// One pattern segment against one path segment: a parameter segment
/// captures any non-empty segment; a literal segment must match exactly.
pub open spec fn seg_matches(pat: Seq<char>, seg: Seq<char>) -> bool {
    if is_param_seg(pat) {
        seg.len() > 0
    } else {
        pat == seg
    }
}

pub open spec fn segs_match(pat: Seq<Seq<char>>, path: Seq<Seq<char>>) -> bool {
    &&& pat.len() == path.len()
    &&& forall|i: int| 0 <= i < pat.len() ==> seg_matches(pat[i], #[trigger] path[i])
}

/// Whether a request path matches a compiled pattern, segment by segment.
pub open spec fn path_matches(pattern: Seq<char>, path: Seq<char>) -> bool {
    segs_match(split_slash(pattern), split_slash(path))
}

/// The `(name, value)` pairs captured by the parameter segments of `pat`,
/// in order. Meaningful when the two segment lists have equal length.
pub open spec fn captures_segs(pat: Seq<Seq<char>>, path: Seq<Seq<char>>) -> Seq<
    (Seq<char>, Seq<char>),
>
    decreases pat.len(),
{
    if pat.len() == 0 || path.len() == 0 {
        Seq::empty()
    } else {
        captures_segs(pat.drop_last(), path.drop_last()) + if is_param_seg(pat.last()) {
            seq![(param_name(pat.last()), path.last())]
        } else {
            Seq::empty()
        }
    }
}

/// The parameters a matching request path hands to the bound action.
pub open spec fn path_captures(pattern: Seq<char>, path: Seq<char>) -> Seq<
    (Seq<char>, Seq<char>),
> {
    captures_segs(split_slash(pattern), split_slash(path))
}

/// The views of a vector of owned capture pairs.
pub open spec fn pair_views(ps: Seq<(String, String)>) -> Seq<(Seq<char>, Seq<char>)> {
    ps.map_values(|p: (String, String)| (p.0@, p.1@))
}

proof fn lemma_captures_take_step(pat: Seq<Seq<char>>, path: Seq<Seq<char>>, i: int)
    requires
        0 <= i < pat.len(),
        0 <= i < path.len(),
    ensures
        captures_segs(pat.take(i + 1), path.take(i + 1)) == captures_segs(
            pat.take(i),
            path.take(i),
        ) + if is_param_seg(pat[i]) {
            seq![(param_name(pat[i]), path[i])]
        } else {
            Seq::<(Seq<char>, Seq<char>)>::empty()
        },
{
    let a = pat.take(i + 1);
    let b = path.take(i + 1);
    assert(a.drop_last() =~~= pat.take(i));
    assert(b.drop_last() =~~= path.take(i));
    assert(a.last() == pat[i]);
    assert(b.last() == path[i]);
}

/// Match a request path against one compiled pattern. Returns the captured
/// parameters exactly when the path matches.
pub fn match_pattern(pattern: &str, path: &str) -> (r: Option<Vec<(String, String)>>)
    ensures
        r is Some <==> path_matches(pattern@, path@),
        r matches Some(ps) ==> pair_views(ps@) == path_captures(pattern@, path@),
{
    let pat_segs = split_path(pattern);
    let path_segs = split_path(path);
    let ghost pv = seg_views(pat_segs@);
    let ghost sv = seg_views(path_segs@);
    if pat_segs.len() != path_segs.len() {
        return None;
    }
    let n = pat_segs.len();
    let mut params: Vec<(String, String)> = Vec::new();
    let mut i: usize = 0;
    while i < n
        invariant
            n == pat_segs@.len() == path_segs@.len(),
            pv == seg_views(pat_segs@),
            sv == seg_views(path_segs@),
            pv == split_slash(pattern@),
            sv == split_slash(path@),
            0 <= i <= n,
            forall|k: int| 0 <= k < i ==> seg_matches(pv[k], #[trigger] sv[k]),
            pair_views(params@) == captures_segs(pv.take(i as int), sv.take(i as int)),
        decreases n - i,
    {
        let pat_seg: &String = &pat_segs[i];
        let path_seg: &String = &path_segs[i];
        let plen = pat_seg.as_str().unicode_len();
        let is_param = plen >= 2 && pat_seg.as_str().get_char(0) == '{' && pat_seg.as_str().get_char(
            plen - 1,
        ) == '}';
        proof {
            assert(pv[i as int] == pat_seg@);
            assert(sv[i as int] == path_seg@);
            assert(is_param == is_param_seg(pv[i as int]));
            lemma_captures_take_step(pv, sv, i as int);
        }
        if is_param {
            if path_seg.as_str().unicode_len() == 0 {
                proof {
                    assert(!seg_matches(pv[i as int], sv[i as int]));
                }
                return None;
            }
            let name = pat_seg.as_str().substring_char(1, plen - 1).to_owned();
            let value = path_seg.clone();
            proof {
                assert(name@ == param_name(pv[i as int]));
                assert(pair_views(params@.push((name, value))) =~~= pair_views(params@) + seq![
                    (name@, value@),
                ]);
            }
            params.push((name, value));
        } else {
            if !pat_seg.eq(path_seg) {
                proof {
                    assert(!seg_matches(pv[i as int], sv[i as int]));
                }
                return None;
            }
            proof {
                assert(pair_views(params@) =~~= captures_segs(
                    pv.take(i as int + 1),
                    sv.take(i as int + 1),
                ));
            }
        }
        i += 1;
    }
    proof {
        assert(pv.take(n as int) =~~= pv);
        assert(sv.take(n as int) =~~= sv);
        assert(segs_match(pv, sv));
    }
    Some(params)
}

/// One handler entry: a path pattern and its method-to-action bindings.
/// One pattern may bind several methods to distinct actions.
pub struct Handler<A> {
    pub uri: String,
    pub actions: Vec<(Method, A)>,
}

/// A route group: an optional group-local prefix and an ordered collection
/// of handler entries.
pub struct Routes<A> {
    pub prefix: Option<String>,
    pub handlers: Vec<Handler<A>>,
}

/// The whole route tree: an optional global prefix and an ordered
/// collection of route groups.
pub struct AppRoutes<A> {
    pub prefix: Option<String>,
    pub routes: Vec<Routes<A>>,
}

/// The text of an optional prefix; an absent prefix contributes nothing.
pub open spec fn opt_str_view(p: Option<String>) -> Seq<char> {
    match p {
        Some(s) => s@,
        None => Seq::empty(),
    }
}

/// The path a group mounts at: the raw concatenation of the global prefix
/// and the group prefix, with no separator normalization.
pub open spec fn resolved_prefix<A>(global: Option<String>, group: Routes<A>) -> Seq<char> {
    opt_str_view(global) + opt_str_view(group.prefix)
}

impl<A> Routes<A> {
    /// Creates a new [`Routes`] instance with default settings.
    pub fn new() -> (r: Self)
        ensures
            r.prefix is None,
            r.handlers@ == Seq::<Handler<A>>::empty(),
    {
        Routes { prefix: None, handlers: Vec::new() }
    }

    /// Creates a group mounted at the given prefix.
    pub fn at(prefix: &str) -> (r: Self)
        ensures
            r.prefix matches Some(p) && p@ == prefix@,
            r.handlers@ == Seq::<Handler<A>>::empty(),
    {
        Routes { prefix: Some(prefix.to_owned()), handlers: Vec::new() }
    }

    /// Adds a new route handler binding one path pattern to its actions.
    pub fn add(self, uri: &str, actions: Vec<(Method, A)>) -> (r: Self)
        ensures
            r.prefix == self.prefix,
            r.handlers@.len() == self.handlers@.len() + 1,
            r.handlers@.drop_last() == self.handlers@,
            r.handlers@.last().uri@ == uri@,
            r.handlers@.last().actions == actions,
    {
        let Routes { prefix, mut handlers } = self;
        let ghost hs0 = handlers@;
        handlers.push(Handler { uri: uri.to_owned(), actions });
        proof {
            assert(handlers@.drop_last() =~= hs0);
        }
        Routes { prefix, handlers }
    }

    /// Sets the group's prefix; the last call wins.
    pub fn prefix(self, uri: &str) -> (r: Self)
        ensures
            r.handlers == self.handlers,
            r.prefix matches Some(p) && p@ == uri@,
    {
        Routes { prefix: Some(uri.to_owned()), handlers: self.handlers }
    }
}

impl<A> AppRoutes<A> {
    /// Creates a new [`AppRoutes`] instance with default settings: an empty
    /// tree with no global prefix.
    pub fn with_default_routes() -> (r: Self)
        ensures
            r.prefix is None,
            r.routes@ == Seq::<Routes<A>>::empty(),
    {
        AppRoutes { prefix: None, routes: Vec::new() }
    }

    /// Appends a route group; groups keep their insertion order.
    pub fn add_route(self, route: Routes<A>) -> (r: Self)
        ensures
            r.prefix == self.prefix,
            r.routes@ == self.routes@.push(route),
    {
        let AppRoutes { prefix, mut routes } = self;
        routes.push(route);
        AppRoutes { prefix, routes }
    }

    /// Sets the global prefix; the last call wins.
    pub fn prefix(self, prefix: &str) -> (r: Self)
        ensures
            r.routes == self.routes,
            r.prefix matches Some(p) && p@ == prefix@,
    {
        AppRoutes { prefix: Some(prefix.to_owned()), routes: self.routes }
    }
}

/// A route group compiled and mounted at its resolved prefix.
pub struct MountedGroup<A> {
    pub prefix: String,
    pub handlers: Vec<Handler<A>>,
}

/// A boot-time failure: two groups resolved to the identical mount path.
#[derive(Debug)]
pub struct RouteConflict {
    pub path: String,
}

/// The compiled, immutable dispatch structure, bound once to the shared
/// application context.
pub struct Dispatcher<A, D, C> {
    pub groups: Vec<MountedGroup<A>>,
    pub ctx: AppContext<D, C>,
}

/// The dispatch pattern of handler `j` of a mounted group: the raw
/// concatenation of the group's mount prefix and the handler's pattern.
pub open spec fn full_pattern<A>(g: MountedGroup<A>, j: int) -> Seq<char> {
    g.prefix@ + g.handlers@[j].uri@
}

/// The compiled dispatcher reflects the route tree exactly: one mounted
/// group per route group, in insertion order, each at its resolved prefix,
/// with the group's handler entries unchanged.
pub open spec fn compiled_from<A, D, C>(d: Dispatcher<A, D, C>, app: AppRoutes<A>) -> bool {
    &&& d.groups@.len() == app.routes@.len()
    &&& forall|i: int|
        0 <= i < app.routes@.len() ==> (#[trigger] d.groups@[i]).prefix@ == resolved_prefix(
            app.prefix,
            app.routes@[i],
        )
    &&& forall|i: int|
        0 <= i < app.routes@.len() ==> (#[trigger] d.groups@[i]).handlers
            == app.routes@[i].handlers
}

/// No two groups of the tree resolve to the identical mount path.
pub open spec fn no_mount_conflict<A>(app: AppRoutes<A>) -> bool {
    forall|i: int, j: int|
        0 <= i < j < app.routes@.len() ==> resolved_prefix(app.prefix, #[trigger] app.routes@[i])
            != resolved_prefix(app.prefix, #[trigger] app.routes@[j])
}

impl<A> AppRoutes<A> {
    /// The compilation step, executed exactly once at boot: mounts every
    /// group at its resolved prefix, in insertion order, and binds the
    /// result to the application context. Two groups resolving to the same
    /// path are reported as a boot-time conflict, never left to shadow one
    /// another at request time.
    pub fn into_router<D, C>(self, ctx: AppContext<D, C>) -> (r: Result<
        Dispatcher<A, D, C>,
        RouteConflict,
    >)
        ensures
            r matches Ok(d) ==> compiled_from(d, self) && d.ctx == ctx,
            r is Ok <==> no_mount_conflict(self),
            r matches Err(c) ==> exists|i: int, j: int|
                0 <= i < j < self.routes@.len() && resolved_prefix(
                    self.prefix,
                    #[trigger] self.routes@[i],
                ) == resolved_prefix(self.prefix, #[trigger] self.routes@[j]) && c.path@
                    == resolved_prefix(self.prefix, self.routes@[j]),
    {
        let ghost app = self;
        let AppRoutes { prefix, routes } = self;
        let gp: String = match &prefix {
            Some(p) => p.clone(),
            None => String::new(),
        };
        let ghost routes0 = routes@;
        let mut rest = routes;
        let mut groups: Vec<MountedGroup<A>> = Vec::new();
        while rest.len() > 0
            invariant
                app == self,
                app.prefix == prefix,
                app.routes@ == routes0,
                groups@.len() + rest@.len() == routes0.len(),
                rest@ == routes0.skip(groups@.len() as int),
                gp@ == opt_str_view(prefix),
                forall|i: int|
                    0 <= i < groups@.len() ==> (#[trigger] groups@[i]).prefix@ == resolved_prefix(
                        prefix,
                        routes0[i],
                    ),
                forall|i: int|
                    0 <= i < groups@.len() ==> (#[trigger] groups@[i]).handlers
                        == routes0[i].handlers,
                forall|i: int, j: int|
                    0 <= i < j < groups@.len() ==> (#[trigger] groups@[i]).prefix@ != (
                    #[trigger] groups@[j]).prefix@,
            decreases rest@.len(),
        {
            let ghost k = groups@.len() as int;
            let route = rest.remove(0);
            let ghost route_g = route;
            proof {
                assert(route_g == routes0[k]);
                assert(rest@ =~= routes0.skip(k + 1));
            }
            let Routes { prefix: rp, handlers } = route;
            let rps: String = match &rp {
                Some(p) => p.clone(),
                None => String::new(),
            };
            let full: String = gp.clone().concat(rps.as_str());
            proof {
                assert(rp == route_g.prefix);
                assert(full@ == resolved_prefix(prefix, route_g));
            }
            let mut m: usize = 0;
            while m < groups.len()
                invariant
                    app == self,
                    0 <= m <= groups@.len(),
                    k == groups@.len() as int,
                    0 <= k < routes0.len(),
                    full@ == resolved_prefix(prefix, routes0[k]),
                    app.prefix == prefix,
                    app.routes@ == routes0,
                    forall|i: int|
                        0 <= i < groups@.len() ==> (#[trigger] groups@[i]).prefix@
                            == resolved_prefix(prefix, routes0[i]),
                    forall|i: int| 0 <= i < m ==> (#[trigger] groups@[i]).prefix@ != full@,
                decreases groups@.len() - m,
            {
                if groups[m].prefix.eq(&full) {
                    proof {
                        assert(resolved_prefix(app.prefix, app.routes@[m as int])
                            == resolved_prefix(app.prefix, app.routes@[k]));
                        assert(!no_mount_conflict(app));
                    }
                    return Err(RouteConflict { path: full });
                }
                m += 1;
            }
            groups.push(MountedGroup { prefix: full, handlers });
        }
        proof {
            assert forall|i: int, j: int| 0 <= i < j < app.routes@.len() implies resolved_prefix(
                app.prefix,
                #[trigger] app.routes@[i],
            ) != resolved_prefix(app.prefix, #[trigger] app.routes@[j]) by {
                assert(groups@[i].prefix@ == resolved_prefix(app.prefix, app.routes@[i]));
                assert(groups@[j].prefix@ == resolved_prefix(app.prefix, app.routes@[j]));
            }
        }
        Ok(Dispatcher { groups, ctx })
    }
}

/// Law: every compiled dispatch path is the literal concatenation of the
/// global prefix, the group prefix and the handler's path pattern; no
/// separator is added or removed anywhere along the way.
pub proof fn lemma_compiled_path_is_concatenation<A, D, C>(
    app: AppRoutes<A>,
    d: Dispatcher<A, D, C>,
    i: int,
    j: int,
)
    requires
        compiled_from(d, app),
        0 <= i < app.routes@.len(),
        0 <= j < app.routes@[i].handlers@.len(),
    ensures
        full_pattern(d.groups@[i], j) == opt_str_view(app.prefix) + opt_str_view(
            app.routes@[i].prefix,
        ) + app.routes@[i].handlers@[j].uri@,
{
    assert(full_pattern(d.groups@[i], j) =~= opt_str_view(app.prefix) + opt_str_view(
        app.routes@[i].prefix,
    ) + app.routes@[i].handlers@[j].uri@);
}

/// The outcome of dispatching one request against the compiled table.
#[derive(Debug)]
pub enum DispatchOutcome<A> {
    Found { action: A, params: Vec<(String, String)> },
    MethodNotAllowed,
    NotFound,
}

/// Handler `j` of group `i` exists and its compiled pattern matches `path`.
pub open spec fn matches_at<A, D, C>(
    d: Dispatcher<A, D, C>,
    path: Seq<char>,
    i: int,
    j: int,
) -> bool {
    &&& 0 <= i < d.groups@.len()
    &&& 0 <= j < d.groups@[i].handlers@.len()
    &&& path_matches(full_pattern(d.groups@[i], j), path)
}

pub open spec fn some_match<A, D, C>(d: Dispatcher<A, D, C>, path: Seq<char>) -> bool {
    exists|i: int, j: int| matches_at(d, path, i, j)
}

/// Entry `(i2, j2)` comes before `(i, j)` in group-then-handler order.
pub open spec fn earlier_entry(i2: int, j2: int, i: int, j: int) -> bool {
    i2 < i || (i2 == i && j2 < j)
}

/// `(i, j)` is the first entry whose pattern matches `path`.
pub open spec fn first_match_at<A, D, C>(
    d: Dispatcher<A, D, C>,
    path: Seq<char>,
    i: int,
    j: int,
) -> bool {
    &&& matches_at(d, path, i, j)
    &&& forall|i2: int, j2: int|
        #[trigger] matches_at(d, path, i2, j2) ==> !earlier_entry(i2, j2, i, j)
}

/// Some binding of the entry carries the requested method.
pub open spec fn binds_method<A>(acts: Seq<(Method, A)>, m: Method) -> bool {
    exists|k: int| 0 <= k < acts.len() && (#[trigger] acts[k]).0 == m
}

/// `k` is the first binding of the entry that carries method `m`.
pub open spec fn first_binding_at<A>(acts: Seq<(Method, A)>, m: Method, k: int) -> bool {
    &&& 0 <= k < acts.len()
    &&& acts[k].0 == m
    &&& forall|k2: int| 0 <= k2 < k ==> (#[trigger] acts[k2]).0 != m
}

/// What dispatch must return once the first matching entry is `(i, j)`:
/// the action of the entry's first binding for the method, with the
/// captured path parameters, or method-not-allowed when no binding carries
/// the method.
pub open spec fn outcome_at<A, D, C>(
    d: Dispatcher<A, D, C>,
    path: Seq<char>,
    m: Method,
    i: int,
    j: int,
    r: DispatchOutcome<A>,
) -> bool {
    let h = d.groups@[i].handlers@[j];
    if binds_method(h.actions@, m) {
        forall|k: int|
            #[trigger] first_binding_at(h.actions@, m, k) ==> (r matches DispatchOutcome::Found {
                action,
                params,
            } && action == h.actions@[k].1 && pair_views(params@) == path_captures(
                full_pattern(d.groups@[i], j),
                path,
            ))
    } else {
        r is MethodNotAllowed
    }
}

impl<A: Copy, D, C> Dispatcher<A, D, C> {
    /// Request-time dispatch: match the path against the compiled patterns
    /// in order, then the method against the matching entry's bindings. No
    /// path match gives not-found; a path match without the method gives
    /// method-not-allowed; both give the bound action and the captured
    /// path parameters.
    pub fn dispatch(&self, path: &str, method: Method) -> (r: DispatchOutcome<A>)
        ensures
            (r is NotFound) <==> !some_match(*self, path@),
            forall|i: int, j: int|
                #[trigger] first_match_at(*self, path@, i, j) ==> outcome_at(
                    *self,
                    path@,
                    method,
                    i,
                    j,
                    r,
                ),
    {
        let ghost d = *self;
        let mut i: usize = 0;
        while i < self.groups.len()
            invariant
                d == *self,
                0 <= i <= d.groups@.len(),
                forall|i2: int, j2: int| i2 < i ==> !matches_at(d, path@, i2, j2),
            decreases d.groups@.len() - i,
        {
            let g = &self.groups[i];
            let mut j: usize = 0;
            while j < g.handlers.len()
                invariant
                    d == *self,
                    0 <= i < d.groups@.len(),
                    *g == d.groups@[i as int],
                    0 <= j <= d.groups@[i as int].handlers@.len(),
                    forall|i2: int, j2: int| i2 < i ==> !matches_at(d, path@, i2, j2),
                    forall|j2: int| j2 < j ==> !matches_at(d, path@, i as int, j2),
                decreases d.groups@[i as int].handlers@.len() - j,
            {
                let h = &g.handlers[j];
                let full: String = g.prefix.clone().concat(h.uri.as_str());
                proof {
                    assert(full@ == full_pattern(d.groups@[i as int], j as int));
                }
                match match_pattern(full.as_str(), path) {
                    Some(params) => {
                        proof {
                            assert(matches_at(d, path@, i as int, j as int));
                            assert(first_match_at(d, path@, i as int, j as int));
                        }
                        let acts = &h.actions;
                        let mut k: usize = 0;
                        while k < acts.len()
                            invariant
                                d == *self,
                                0 <= i < d.groups@.len(),
                                0 <= j < d.groups@[i as int].handlers@.len(),
                                *acts == d.groups@[i as int].handlers@[j as int].actions,
                                full@ == full_pattern(d.groups@[i as int], j as int),
                                pair_views(params@) == path_captures(full@, path@),
                                first_match_at(d, path@, i as int, j as int),
                                0 <= k <= acts@.len(),
                                forall|k2: int|
                                    0 <= k2 < k ==> (#[trigger] acts@[k2]).0 != method,
                            decreases acts@.len() - k,
                        {
                            let b = &acts[k];
                            if b.0 == method {
                                proof {
                                    assert(first_binding_at(acts@, method, k as int));
                                    lemma_first_match_unique(d, path@, i as int, j as int);
                                }
                                return DispatchOutcome::Found { action: b.1, params };
                            }
                            k += 1;
                        }
                        proof {
                            assert(!binds_method(acts@, method));
                            lemma_first_match_unique(d, path@, i as int, j as int);
                        }
                        return DispatchOutcome::MethodNotAllowed;
                    },
                    None => {
                        proof {
                            assert(!matches_at(d, path@, i as int, j as int));
                        }
                    },
                }
                j += 1;
            }
            i += 1;
        }
        proof {
            assert(!some_match(d, path@));
        }
        DispatchOutcome::NotFound
    }
}

/// Two first matches are the same entry.
proof fn lemma_first_match_unique<A, D, C>(d: Dispatcher<A, D, C>, path: Seq<char>, i: int, j: int)
    requires
        first_match_at(d, path, i, j),
    ensures
        forall|i2: int, j2: int| #[trigger] first_match_at(d, path, i2, j2) ==> i2 == i && j2 == j,
{
    assert forall|i2: int, j2: int| #[trigger] first_match_at(d, path, i2, j2) implies i2 == i
        && j2 == j by {
        assert(matches_at(d, path, i2, j2));
        assert(matches_at(d, path, i, j));
        assert(!earlier_entry(i2, j2, i, j));
        assert(!earlier_entry(i, j, i2, j2));
    }
}

} // verus!
