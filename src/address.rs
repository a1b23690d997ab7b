use vstd::prelude::*;

verus! {

#[verifier::external_type_specification]
#[verifier::external_body]
pub struct ExUrl(url::Url);

#[verifier::external_type_specification]
#[verifier::external_body]
pub struct ExParseError(url::ParseError);

/// Whether `text` parses as an absolute URL.
pub uninterp spec fn url_accepts(text: Seq<char>) -> bool;

/// Relies on url::Url::parse: whether a text parses as an absolute URL is
/// decided by the text alone.
#[verifier::external_body]
pub(crate) fn parse_url(text: &str) -> (r: Result<url::Url, url::ParseError>)
    ensures
        r is Ok <==> url_accepts(text@),
{
    url::Url::parse(text)
}

/// The URL of a pantry: `{base}/pantry/{id}`.
pub open spec fn pantry_url(base: Seq<char>, id: Seq<char>) -> Seq<char> {
    base + "/pantry/"@ + id
}

/// The URL of a basket: `{base}/pantry/{id}/basket/{name}`.
pub open spec fn basket_url(base: Seq<char>, id: Seq<char>, name: Seq<char>) -> Seq<char> {
    pantry_url(base, id) + "/basket/"@ + name
}

} // verus!

verus! {

/// `s` is a path segment that is not empty and holds no `/`.
pub open spec fn is_segment(s: Seq<char>) -> bool {
    s.len() > 0 && forall|i: int| 0 <= i < s.len() ==> s[i] != '/'
}

/// A basket's URL is the service root followed by exactly the four segments
/// `pantry`, the pantry's identifier, `basket` and the basket's name: when the
/// root does not end in `/` and the identifier and name are non-empty and free
/// of `/`, no two slashes stand side by side after the root and the URL does
/// not end in `/`.
pub proof fn basket_url_segments(base: Seq<char>, id: Seq<char>, name: Seq<char>)
    requires
        base.len() > 0,
        base.last() != '/',
        is_segment(id),
        is_segment(name),
    ensures
        basket_url(base, id, name) == base + "/pantry/"@ + id + "/basket/"@ + name,
        basket_url(base, id, name).subrange(0, base.len() as int) == base,
        forall|k: int|
            base.len() - 1 <= k < basket_url(base, id, name).len() - 1 ==> !(
            #[trigger] basket_url(base, id, name)[k] == '/' && basket_url(base, id, name)[k + 1]
                == '/'),
        basket_url(base, id, name).last() != '/',
{
    reveal_strlit("/pantry/");
    reveal_strlit("/basket/");
    let u = basket_url(base, id, name);
    let b = base.len() as int;
    let p = "/pantry/"@;
    let q = "/basket/"@;
    let i = id.len() as int;
    let n = name.len() as int;
    assert(p =~= seq!['/', 'p', 'a', 'n', 't', 'r', 'y', '/']);
    assert(q =~= seq!['/', 'b', 'a', 's', 'k', 'e', 't', '/']);
    assert(u.len() == b + 8 + i + 8 + n);
    assert forall|k: int| 0 <= k < b implies u[k] == base[k] by {}
    assert forall|k: int| b <= k < b + 8 implies u[k] == p[k - b] by {}
    assert forall|k: int| b + 8 <= k < b + 8 + i implies u[k] == id[k - b - 8] by {}
    assert forall|k: int| b + 8 + i <= k < b + 16 + i implies u[k] == q[k - b - 8 - i] by {}
    assert forall|k: int| b + 16 + i <= k < u.len() implies u[k] == name[k - b - 16 - i] by {}
    assert(u.subrange(0, b) =~= base);
}

/// Two pantries of one service have different URLs, and so have baskets of one
/// name in two pantries: a URL never leads to a pantry other than the one that
/// the client was made for.
pub proof fn pantry_urls_distinct(base: Seq<char>, id1: Seq<char>, id2: Seq<char>, name: Seq<char>)
    requires
        id1 != id2,
    ensures
        pantry_url(base, id1) != pantry_url(base, id2),
        basket_url(base, id1, name) != basket_url(base, id2, name),
{
    let p = "/pantry/"@;
    let start: int = (base.len() + p.len()) as int;
    if pantry_url(base, id1) == pantry_url(base, id2) {
        assert(pantry_url(base, id1).subrange(start, start + id1.len() as int) =~= id1);
        assert(pantry_url(base, id2).subrange(start, start + id2.len() as int) =~= id2);
    }
    if basket_url(base, id1, name) == basket_url(base, id2, name) {
        let q = "/basket/"@;
        assert(basket_url(base, id1, name).len() == start + id1.len() + q.len() + name.len());
        assert(basket_url(base, id2, name).len() == start + id2.len() + q.len() + name.len());
        assert(basket_url(base, id1, name).subrange(start, start + id1.len() as int) =~= id1);
        assert(basket_url(base, id2, name).subrange(start, start + id2.len() as int) =~= id2);
    }
}

} // verus!
