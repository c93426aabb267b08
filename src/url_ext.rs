use vstd::prelude::*;

verus! {

/// The path component of `s` as parsed by the `url` crate, or `None` where `s`
/// is not an absolute URL.
pub uninterp spec fn parsed_path(s: Seq<char>) -> Option<Seq<char>>;

/// The decoded query pairs of `s` as parsed by the `url` crate, in order, or
/// `None` where `s` is not an absolute URL.
pub uninterp spec fn parsed_query_pairs(s: Seq<char>) -> Option<Seq<(Seq<char>, Seq<char>)>>;

/// Relies on `url::Url::parse` and `url::Url::path`: the path of the parsed URL.
#[verifier::external_body]
pub(crate) fn url_path(s: &str) -> (r: Option<String>)
    ensures
        match r {
            Some(p) => parsed_path(s@) == Some(p@),
            None => parsed_path(s@).is_none(),
        },
{
    match url::Url::parse(s) {
        Ok(u) => Some(u.path().to_string()),
        Err(_) => None,
    }
}

/// Relies on `url::Url::parse` and `url::Url::query_pairs`: the decoded
/// key/value pairs of the query string, in the order in which they stand.
#[verifier::external_body]
fn url_query_pairs(s: &str) -> (r: Option<Vec<(String, String)>>)
    ensures
        match r {
            Some(v) => parsed_query_pairs(s@) == Some(pairs_view(v@)),
            None => parsed_query_pairs(s@).is_none(),
        },
{
    match url::Url::parse(s) {
        Ok(u) => Some(u.query_pairs().map(|(k, v)| (k.into_owned(), v.into_owned())).collect()),
        Err(_) => None,
    }
}

/// The pairs of `v` as character sequences.
pub open spec fn pairs_view(v: Seq<(String, String)>) -> Seq<(Seq<char>, Seq<char>)> {
    Seq::new(v.len(), |i: int| (v[i].0@, v[i].1@))
}

/// The values of the pairs whose key is `key`, in order.
pub open spec fn values_for(pairs: Seq<(Seq<char>, Seq<char>)>, key: Seq<char>) -> Seq<Seq<char>>
    decreases pairs.len(),
{
    if pairs.len() == 0 {
        Seq::empty()
    } else {
        let rest = values_for(pairs.drop_first(), key);
        if pairs[0].0 == key {
            seq![pairs[0].1] + rest
        } else {
            rest
        }
    }
}

/// The path that a request keeps for the URL `url`: the parsed path, or else
/// the URL itself with a leading `/` put in front where it has none.
pub open spec fn spec_derive_path(url: Seq<char>) -> Seq<char> {
    match parsed_path(url) {
        Some(p) => p,
        None => if url.len() > 0 && url[0] == '/' {
            url
        } else {
            seq!['/'] + url
        },
    }
}

/// The path kept for a URL that the `url` crate could not parse: it always
/// starts with `/`.
pub fn fallback_path(url: &str) -> (r: String)
    ensures
        r@ == (if url@.len() > 0 && url@[0] == '/' { url@ } else { seq!['/'] + url@ }),
        r@.len() > 0 && r@[0] == '/',
{
    if url.unicode_len() > 0 && url.get_char(0) == '/' {
        url.to_string()
    } else {
        let r = String::from_str("/").concat(url);
        proof { reveal_strlit("/"); }
        r
    }
}

/// The path of a request whose URL is `url`.
pub fn derive_path(url: &str) -> (r: String)
    ensures
        r@ == spec_derive_path(url@),
        parsed_path(url@).is_none() ==> r@.len() > 0 && r@[0] == '/',
{
    match url_path(url) {
        Some(p) => p,
        None => fallback_path(url),
    }
}

/// A cursor over the values of one query key, in the order of the query string.
pub struct ParamIter {
    pairs: Vec<(String, String)>,
    key: String,
    pos: usize,
}

impl ParamIter {
    /// The values that `next` has yet to hand out, in order.
    pub closed spec fn remaining(&self) -> Seq<Seq<char>> {
        values_for(pairs_view(self.pairs@).subrange(self.pos as int, self.pairs@.len() as int), self.key@)
    }

    pub closed spec fn wf(&self) -> bool {
        self.pos <= self.pairs@.len()
    }

    /// A cursor over the values of `key` among `pairs`.
    pub fn new(pairs: Vec<(String, String)>, key: &str) -> (r: ParamIter)
        ensures
            r.wf(),
            r.remaining() == values_for(pairs_view(pairs@), key@),
    {
        let r = ParamIter { pairs, key: key.to_string(), pos: 0 };
        assert(pairs_view(r.pairs@).subrange(0, r.pairs@.len() as int) =~= pairs_view(r.pairs@));
        r
    }

    /// The next value of the key, if any is left.
    pub fn next(&mut self) -> (r: Option<String>)
        requires
            old(self).wf(),
        ensures
            final(self).wf(),
            match r {
                Some(v) => old(self).remaining().len() > 0 && v@ == old(self).remaining()[0]
                    && final(self).remaining() == old(self).remaining().drop_first(),
                None => old(self).remaining().len() == 0 && final(self).remaining().len() == 0,
            },
    {
        let ghost pv = pairs_view(self.pairs@);
        let ghost n = self.pairs@.len() as int;
        let ghost start = self.remaining();
        while self.pos < self.pairs.len()
            invariant
                self.pos <= self.pairs@.len(),
                pv == pairs_view(self.pairs@),
                n == self.pairs@.len(),
                start == self.remaining(),
                start == old(self).remaining(),
                self.key@ == old(self).key@,
            decreases self.pairs@.len() - self.pos,
        {
            let i = self.pos;
            assert(pv.subrange(i as int, n).drop_first() =~= pv.subrange(i + 1, n));
            self.pos = i + 1;
            if self.pairs[i].0 == self.key {
                let v = self.pairs[i].1.clone();
                assert(pv.subrange(i as int, n)[0] == pv[i as int]);
                assert(start == seq![v@] + self.remaining());
                assert((seq![v@] + self.remaining()).drop_first() =~= self.remaining());
                return Some(v);
            }
        }
        assert(pv.subrange(n, n) =~= Seq::<(Seq<char>, Seq<char>)>::empty());
        None
    }
}

/// The values of the query key `key` in the URL `url`, as a cursor; it is empty
/// where `url` is not an absolute URL.
pub fn param_iter(url: &str, key: &str) -> (r: ParamIter)
    ensures
        r.wf(),
        r.remaining() == match parsed_query_pairs(url@) {
            Some(p) => values_for(p, key@),
            None => Seq::empty(),
        },
{
    match url_query_pairs(url) {
        Some(v) => ParamIter::new(v, key),
        None => {
            let r = ParamIter::new(Vec::new(), key);
            assert(pairs_view(Seq::<(String, String)>::empty()) =~= Seq::empty());
            r
        },
    }
}

/// The first value of the query key `key` in the URL `url`.
pub fn param(url: &str, key: &str) -> (r: Option<String>)
    ensures
        match parsed_query_pairs(url@) {
            Some(p) => match r {
                Some(v) => values_for(p, key@).len() > 0 && v@ == values_for(p, key@)[0],
                None => values_for(p, key@).len() == 0,
            },
            None => r.is_none(),
        },
{
    let mut it = param_iter(url, key);
    it.next()
}

} // verus!
