use vstd::prelude::*;

use crate::encode::{param_key, param_value, Param};
use crate::error::{RequestError, TransportError};
use crate::period::Period;
use crate::resolve::resolves_outcome;
use crate::top_artists::TopArtists;

verus! {

/// A client of the service: holds the key that every request is made with.
/// The transport that carries requests is supplied by the caller.
pub struct Client {
    pub api_key: String,
}

/// The views of a list of query pairs.
pub open spec fn pairs_view(ps: Seq<(String, String)>) -> Seq<(Seq<char>, Seq<char>)> {
    ps.map_values(|p: (String, String)| (p.0@, p.1@))
}

/// No key occurs twice in `ps`.
pub open spec fn keys_unique(ps: Seq<(Seq<char>, Seq<char>)>) -> bool {
    forall|i: int, j: int| 0 <= i < j < ps.len() ==> #[trigger] ps[i].0 != #[trigger] ps[j].0
}

/// `ps` after setting `key` to `value`: an entry of that key is replaced
/// in place, and otherwise the pair is added at the end.
pub open spec fn with_pair(
    ps: Seq<(Seq<char>, Seq<char>)>,
    key: Seq<char>,
    value: Seq<char>,
) -> Seq<(Seq<char>, Seq<char>)> {
    if exists|i: int| 0 <= i < ps.len() && ps[i].0 == key {
        let i = choose|i: int| 0 <= i < ps.len() && ps[i].0 == key;
        ps.update(i, (key, value))
    } else {
        ps.push((key, value))
    }
}

/// The value of `key` in `ps`, where `ps` holds it.
pub open spec fn value_of(ps: Seq<(Seq<char>, Seq<char>)>, key: Seq<char>) -> Option<Seq<char>> {
    if exists|i: int| 0 <= i < ps.len() && ps[i].0 == key {
        let i = choose|i: int| 0 <= i < ps.len() && ps[i].0 == key;
        Some(ps[i].1)
    } else {
        None
    }
}

/// The remote method that lists a user's top artists.
pub open spec fn top_artists_method() -> Seq<char> {
    "user.getTopArtists"@
}

/// A pending request for one remote method. The method and the user are
/// fixed when it is made; optional parameters are set one by one, a later
/// value of a key replacing the earlier one. Sending it, or taking its
/// query, uses it up.
pub struct RequestBuilder<'a> {
    pub client: &'a Client,
    pub method: String,
    pub user: String,
    pub params: Vec<(String, String)>,
}

/// Setting a key keeps the keys distinct, and leaves exactly one entry of
/// that key, holding the value set.
pub proof fn lemma_with_pair(ps: Seq<(Seq<char>, Seq<char>)>, key: Seq<char>, value: Seq<char>)
    requires
        keys_unique(ps),
    ensures
        keys_unique(with_pair(ps, key, value)),
        value_of(with_pair(ps, key, value), key) == Some(value),
        forall|i: int|
            0 <= i < with_pair(ps, key, value).len() && (#[trigger] with_pair(ps, key, value)[i]).0 == key
                ==> with_pair(ps, key, value)[i].1 == value,
{
    let q = with_pair(ps, key, value);
    if exists|i: int| 0 <= i < ps.len() && ps[i].0 == key {
        let c = choose|i: int| 0 <= i < ps.len() && ps[i].0 == key;
        assert(q == ps.update(c, (key, value)));
        assert(forall|i: int| 0 <= i < q.len() ==> #[trigger] q[i].0 == ps[i].0);
        assert(q[c].0 == key);
    } else {
        assert(q == ps.push((key, value)));
        assert(forall|i: int| 0 <= i < ps.len() ==> #[trigger] q[i] == ps[i]);
        assert(q[ps.len() as int].0 == key);
    }
}

/// Setting the same key twice leaves only the later value: the key occurs
/// once, and every entry of it holds the second value.
pub proof fn lemma_later_value_wins(ps: Seq<(Seq<char>, Seq<char>)>, first: Param, second: Param)
    requires
        keys_unique(ps),
        param_key(first) == param_key(second),
    ensures
        keys_unique(
            with_pair(with_pair(ps, param_key(first), param_value(first)), param_key(second), param_value(second)),
        ),
        value_of(
            with_pair(with_pair(ps, param_key(first), param_value(first)), param_key(second), param_value(second)),
            param_key(second),
        ) == Some(param_value(second)),
        forall|i: int|
            #![trigger with_pair(with_pair(ps, param_key(first), param_value(first)), param_key(second), param_value(second))[i]]
            0 <= i < with_pair(with_pair(ps, param_key(first), param_value(first)), param_key(second), param_value(second)).len()
                && with_pair(with_pair(ps, param_key(first), param_value(first)), param_key(second), param_value(second))[i].0 == param_key(second)
                ==> with_pair(with_pair(ps, param_key(first), param_value(first)), param_key(second), param_value(second))[i].1 == param_value(second),
{
    lemma_with_pair(ps, param_key(first), param_value(first));
    lemma_with_pair(with_pair(ps, param_key(first), param_value(first)), param_key(second), param_value(second));
}

impl Client {
    /// A client that makes its requests with `api_key`.
    pub fn new(api_key: String) -> (r: Client)
        ensures
            r.api_key == api_key,
    {
        Client { api_key }
    }

    /// A pending request for the top artists of `user`.
    pub fn top_artists<'a>(&'a self, user: &str) -> (r: RequestBuilder<'a>)
        ensures
            r.wf(),
            r.client == self,
            r.method@ == top_artists_method(),
            r.user@ == user@,
            r.params() == Seq::<(Seq<char>, Seq<char>)>::empty(),
    {
        crate::top_artists::TopArtists::build(self, user)
    }
}

impl<'a> RequestBuilder<'a> {
    /// The optional parameters set so far, in the order first set.
    pub open spec fn params(&self) -> Seq<(Seq<char>, Seq<char>)> {
        pairs_view(self.params@)
    }

    /// The query that this request is sent with: the method, the user, the
    /// optional parameters in order, then the client's key and the response
    /// format.
    pub open spec fn query(&self) -> Seq<(Seq<char>, Seq<char>)> {
        seq![("method"@, self.method@), ("user"@, self.user@)] + self.params()
            + seq![("api_key"@, self.client.api_key@), ("format"@, "json"@)]
    }

    /// The optional parameters have distinct keys.
    pub open spec fn wf(&self) -> bool {
        keys_unique(self.params())
    }

    /// Sets an optional parameter, replacing any earlier value of its key.
    pub fn with_param(self, p: Param) -> (r: RequestBuilder<'a>)
        requires
            self.wf(),
        ensures
            r.wf(),
            r.client == self.client,
            r.method == self.method,
            r.user == self.user,
            r.params() == with_pair(self.params(), param_key(p), param_value(p)),
    {
        let RequestBuilder { client, method, user, params } = self;
        let mut params = params;
        let (key, value) = p.encode();
        let ghost ps = pairs_view(params@);
        let ghost k = key@;
        let ghost v = value@;
        let mut i: usize = 0;
        while i < params.len()
            invariant
                i <= params@.len(),
                ps == pairs_view(params@),
                k == key@,
                v == value@,
                keys_unique(ps),
                ps == self.params(),
                k == param_key(p),
                v == param_value(p),
                client == self.client,
                method == self.method,
                user == self.user,
                forall|j: int| 0 <= j < i ==> ps[j].0 != k,
            decreases params@.len() - i,
        {
            if params[i].0 == key {
                params[i] = (key, value);
                proof {
                    assert(ps[i as int].0 == k);
                    assert(pairs_view(params@) =~= ps.update(i as int, (k, v)));
                    let c = choose|c: int| 0 <= c < ps.len() && ps[c].0 == k;
                    assert(c == i as int);
                }
                return RequestBuilder { client, method, user, params };
            }
            i = i + 1;
        }
        params.push((key, value));
        assert(pairs_view(params@) =~= ps.push((k, v)));
        RequestBuilder { client, method, user, params }
    }

    /// The query of the request, which uses the builder up.
    pub fn into_query(self) -> (r: Vec<(String, String)>)
        ensures
            pairs_view(r@) == self.query(),
    {
        let RequestBuilder { client, method, user, params } = self;
        let mut out: Vec<(String, String)> = Vec::new();
        out.push((String::from_str("method"), method));
        out.push((String::from_str("user"), user));
        let ghost head = pairs_view(out@);
        let mut i: usize = 0;
        while i < params.len()
            invariant
                i <= params@.len(),
                pairs_view(out@) == head + pairs_view(params@).subrange(0, i as int),
            decreases params@.len() - i,
        {
            let pair = (params[i].0.clone(), params[i].1.clone());
            let ghost before = out@;
            out.push(pair);
            assert(out@ == before.push(pair));
            assert(pairs_view(out@) =~= pairs_view(before).push((pair.0@, pair.1@)));
            assert(pairs_view(params@)[i as int] == (pair.0@, pair.1@));
            assert(pairs_view(out@) =~= head + pairs_view(params@).subrange(0, i + 1));
            i = i + 1;
        }
        assert(pairs_view(params@).subrange(0, i as int) =~= pairs_view(params@));
        let ghost mid = pairs_view(out@);
        out.push((String::from_str("api_key"), client.api_key.clone()));
        out.push((String::from_str("format"), String::from_str("json")));
        assert(pairs_view(out@) =~= mid + seq![("api_key"@, client.api_key@), ("format"@, "json"@)]);
        assert(head =~= seq![("method"@, method@), ("user"@, user@)]);
        out
    }

    /// Sends the request, which uses the builder up: its query goes to
    /// `transport` once, and what comes back is resolved. A transport
    /// failure is passed on as it is.
    pub fn send<F>(self, transport: F) -> (r: Result<TopArtists, RequestError>) where
        F: FnOnce(Vec<(String, String)>) -> Result<String, TransportError>,
        requires
            forall|q: Vec<(String, String)>| #[trigger] transport.requires((q,)),
        ensures
            exists|q: Vec<(String, String)>, out: Result<String, TransportError>|
                pairs_view(q@) == self.query() && #[trigger] transport.ensures((q,), out)
                    && resolves_outcome(out, r),
    {
        let query = self.into_query();
        let ghost sent = query;
        let out = transport(query);
        let r = TopArtists::from_outcome(out);
        assert(pairs_view(sent@) == self.query() && transport.ensures((sent,), out) && resolves_outcome(out, r));
        r
    }

    /// Sets how many entries a page holds.
    pub fn with_limit(self, limit: usize) -> (r: RequestBuilder<'a>)
        requires
            self.wf(),
        ensures
            r.wf(),
            r.client == self.client,
            r.method == self.method,
            r.user == self.user,
            r.params() == with_pair(self.params(), param_key(Param::Limit(limit)), param_value(Param::Limit(limit))),
    {
        self.with_param(Param::Limit(limit))
    }

    /// Sets which page to fetch.
    pub fn with_page(self, page: usize) -> (r: RequestBuilder<'a>)
        requires
            self.wf(),
        ensures
            r.wf(),
            r.client == self.client,
            r.method == self.method,
            r.user == self.user,
            r.params() == with_pair(self.params(), param_key(Param::Page(page)), param_value(Param::Page(page))),
    {
        self.with_param(Param::Page(page))
    }

    /// Sets the time window of the list.
    pub fn with_period(self, period: Period) -> (r: RequestBuilder<'a>)
        requires
            self.wf(),
        ensures
            r.wf(),
            r.client == self.client,
            r.method == self.method,
            r.user == self.user,
            r.params() == with_pair(self.params(), param_key(Param::Period(period)), param_value(Param::Period(period))),
    {
        self.with_param(Param::Period(period))
    }
}

} // verus!
