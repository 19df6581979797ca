use vstd::prelude::*;
use vstd::string::StringExecFns;
use crate::status_set::views_of;

verus! {

/// What the URL parser makes of `base` with `params` form-encoded and
/// appended to its query, or `None` where `base` does not parse.
pub uninterp spec fn url_with_params(base: Seq<char>, params: Seq<(Seq<char>, Seq<char>)>) -> Option<
    Seq<char>,
>;

/// Query pairs, as character sequences.
pub open spec fn pair_views(v: Seq<(String, String)>) -> Seq<(Seq<char>, Seq<char>)> {
    v.map_values(|p: (String, String)| (p.0@, p.1@))
}

/// Relies on reqwest::Url::parse_with_params: parses `base`, appends the
/// pairs to its query, and serialises the result; `None` where `base` does
/// not parse.
#[verifier::external_body]
fn parse_with_params(base: &str, params: &Vec<(String, String)>) -> (r: Option<String>)
    ensures
        r is None <==> url_with_params(base@, pair_views(params@)) is None,
        r matches Some(u) ==> url_with_params(base@, pair_views(params@)) == Some(u@),
{
    reqwest::Url::parse_with_params(base, params.iter()).ok().map(|u| u.to_string())
}

/// The decimal digit `d`.
pub open spec fn digit(d: nat) -> Seq<char> {
    if d == 0 {
        "0"@
    } else if d == 1 {
        "1"@
    } else if d == 2 {
        "2"@
    } else if d == 3 {
        "3"@
    } else if d == 4 {
        "4"@
    } else if d == 5 {
        "5"@
    } else if d == 6 {
        "6"@
    } else if d == 7 {
        "7"@
    } else if d == 8 {
        "8"@
    } else {
        "9"@
    }
}

/// `n` written in decimal, without leading zeros.
pub open spec fn decimal(n: nat) -> Seq<char>
    decreases n,
{
    if n < 10 {
        digit(n)
    } else {
        decimal(n / 10) + digit(n % 10)
    }
}

fn digit_str(d: u8) -> (r: &'static str)
    requires
        d < 10,
    ensures
        r@ == digit(d as nat),
{
    if d == 0 {
        "0"
    } else if d == 1 {
        "1"
    } else if d == 2 {
        "2"
    } else if d == 3 {
        "3"
    } else if d == 4 {
        "4"
    } else if d == 5 {
        "5"
    } else if d == 6 {
        "6"
    } else if d == 7 {
        "7"
    } else if d == 8 {
        "8"
    } else {
        "9"
    }
}

pub fn decimal_u8(n: u8) -> (r: String)
    ensures
        r@ == decimal(n as nat),
{
    if n < 10 {
        String::from_str(digit_str(n))
    } else if n < 100 {
        proof {
            reveal_with_fuel(decimal, 2);
        }
        String::from_str(digit_str(n / 10)).concat(digit_str(n % 10))
    } else {
        proof {
            reveal_with_fuel(decimal, 3);
            assert((n / 10) as nat / 10 == n / 100);
        }
        String::from_str(digit_str(n / 100)).concat(digit_str((n / 10) % 10)).concat(digit_str(n % 10))
    }
}

/// The alternative-tag filters of a timeline query.
pub open spec fn any_pairs(any: Option<Seq<Seq<char>>>) -> Seq<(Seq<char>, Seq<char>)> {
    match any {
        Some(tags) => tags.map_values(|t: Seq<char>| ("any[]"@, t)),
        None => Seq::empty(),
    }
}

/// The filters of `any` as character sequences.
pub open spec fn any_view(any: Option<Vec<String>>) -> Option<Seq<Seq<char>>> {
    match any {
        Some(v) => Some(views_of(v@)),
        None => None,
    }
}

/// The address of the timeline of hashtag `name` on `server`, asking for up
/// to `limit` statuses and for statuses that carry any of the tags of `any`.
pub fn timeline_url(server: &str, name: &str, any: &Option<Vec<String>>, limit: u8) -> (r: Option<String>)
    ensures
        ({
            let base = "https://"@ + server@ + "/api/v1/timelines/tag/"@ + name@ + "?limit="@ + decimal(
                limit as nat,
            );
            &&& r is None <==> url_with_params(base, any_pairs(any_view(*any))) is None
            &&& r matches Some(u) ==> url_with_params(base, any_pairs(any_view(*any))) == Some(u@)
        }),
{
    let base = String::from_str("https://").concat(server).concat("/api/v1/timelines/tag/").concat(
        name,
    ).concat("?limit=");
    let limit_text = decimal_u8(limit);
    let base = base.concat(limit_text.as_str());
    let mut params: Vec<(String, String)> = Vec::new();
    match any {
        Some(tags) => {
            let mut i: usize = 0;
            while i < tags.len()
                invariant
                    i <= tags.len(),
                    params.len() == i,
                    pair_views(params@) == views_of(tags@).subrange(0, i as int).map_values(
                        |t: Seq<char>| ("any[]"@, t),
                    ),
                decreases tags.len() - i,
            {
                let ghost before = params@;
                let key = String::from_str("any[]");
                let tag = tags[i].clone();
                params.push((key, tag));
                proof {
                    assert(params@ == before.push((key, tag)));
                    let f = |t: Seq<char>| ("any[]"@, t);
                    let old_views = views_of(tags@).subrange(0, i as int).map_values(f);
                    let new_views = views_of(tags@).subrange(0, i + 1).map_values(f);
                    assert(pair_views(before) == old_views);
                    assert forall|k: int| 0 <= k < i + 1 implies pair_views(params@)[k]
                        == new_views[k] by {
                        if k < i {
                            assert(params@[k] == before[k]);
                            assert(pair_views(before)[k] == old_views[k]);
                        }
                    }
                    assert(pair_views(params@) =~= views_of(tags@).subrange(0, i + 1).map_values(
                        |t: Seq<char>| ("any[]"@, t),
                    ));
                }
                i += 1;
            }
            assert(views_of(tags@).subrange(0, tags.len() as int) =~= views_of(tags@));
        },
        None => {
            assert(pair_views(params@) =~= Seq::<(Seq<char>, Seq<char>)>::empty());
        },
    }
    parse_with_params(base.as_str(), &params)
}

/// The search query that makes the local `server` resolve the status at
/// `url`, which imports it.
pub open spec fn search_pairs(url: Seq<char>) -> Seq<(Seq<char>, Seq<char>)> {
    seq![("q"@, url), ("resolve"@, "true"@), ("limit"@, "25"@), ("type"@, "statuses"@)]
}

/// The address of the search that imports the status at `url` into `server`.
pub fn search_url(server: &str, url: &str) -> (r: Option<String>)
    ensures
        r is None <==> url_with_params("https://"@ + server@ + "/api/v2/search"@, search_pairs(url@)) is None,
        r matches Some(u) ==> url_with_params("https://"@ + server@ + "/api/v2/search"@, search_pairs(url@))
            == Some(u@),
{
    let base = String::from_str("https://").concat(server).concat("/api/v2/search");
    let params = vec![
        (String::from_str("q"), String::from_str(url)),
        (String::from_str("resolve"), String::from_str("true")),
        (String::from_str("limit"), String::from_str("25")),
        (String::from_str("type"), String::from_str("statuses")),
    ];
    assert(pair_views(params@) =~= search_pairs(url@));
    parse_with_params(base.as_str(), &params)
}

} // verus!
