//! Deep links: how the web app tells a freshly launched companion who uses it.
use vstd::prelude::*;
use crate::json::{parse_strings, strings_read};
use crate::text::{same_text, text_or_empty};

verus! {

/// Named parameters, in the order in which they stand.
pub type Params = Seq<(Seq<char>, Seq<char>)>;

/// Makes `url::Url` known, with nothing known about its inside.
#[verifier::external_type_specification]
#[verifier::external_body]
pub struct ExUrl(url::Url);

/// The decoded query parameters of a `url::Url`.
pub uninterp spec fn query_of(address: url::Url) -> Params;

/// The decoded query parameters of what `url::Url::parse` reads a text as, or
/// `None` where it fails.
pub uninterp spec fn query_read(text: Seq<char>) -> Option<Params>;

/// The views of some named parameters.
pub open spec fn params_view(pairs: Seq<(String, String)>) -> Params {
    pairs.map_values(|pair: (String, String)| (pair.0@, pair.1@))
}

/// Calls `url::Url::parse`. The result, and whether there is one, depends on the
/// text alone.
#[verifier::external_body]
fn parse_url(text: &str) -> (address: Option<url::Url>)
    ensures
        match address {
            Some(u) => query_read(text@) == Some(query_of(u)),
            None => query_read(text@) is None,
        },
{
    url::Url::parse(text).ok()
}

/// Calls `url::Url::query_pairs` and gathers what it yields: the decoded query
/// parameters, in order.
#[verifier::external_body]
fn query_pairs(address: &url::Url) -> (pairs: Vec<(String, String)>)
    ensures
        params_view(pairs@) == query_of(*address),
{
    address.query_pairs().into_owned().collect()
}

/// The value of a parameter. Where it stands more than once, the last one counts.
pub open spec fn param(params: Params, name: Seq<char>) -> Option<Seq<char>>
    decreases params.len(),
{
    if params.len() == 0 {
        None
    } else if params.last().0 == name {
        Some(params.last().1)
    } else {
        param(params.drop_last(), name)
    }
}

/// What a deep link says: the nonce to be exchanged, and who uses the companion
/// if the exchange fails.
#[verifier::ext_equal]
pub struct DeepLinkView {
    pub nonce: Seq<char>,
    pub user_id: Seq<char>,
    pub org_id: Seq<char>,
}

/// What the query of a deep link says. Without a nonce it says nothing.
pub open spec fn link_of(params: Params) -> Option<DeepLinkView> {
    match param(params, "nonce"@) {
        Some(nonce) => Some(
            DeepLinkView {
                nonce,
                user_id: text_or_empty(param(params, "userId"@)),
                org_id: text_or_empty(param(params, "orgId"@)),
            },
        ),
        None => None,
    }
}

/// What the payload of a deep-link event says: the first of the listed links.
pub open spec fn payload_link(payload: Seq<char>) -> Option<DeepLinkView> {
    match strings_read(payload) {
        Some(links) => if links.len() > 0 {
            match query_read(links[0]) {
                Some(params) => link_of(params),
                None => None,
            }
        } else {
            None
        },
        None => None,
    }
}

/// What a deep link says: the nonce to be exchanged, and who uses the companion
/// if the exchange fails.
pub struct DeepLink {
    pub nonce: String,
    pub user_id: String,
    pub org_id: String,
}

impl View for DeepLink {
    type V = DeepLinkView;

    open spec fn view(&self) -> DeepLinkView {
        DeepLinkView { nonce: self.nonce@, user_id: self.user_id@, org_id: self.org_id@ }
    }
}

/// The view of a deep link that may be missing.
pub open spec fn link_view(link: Option<DeepLink>) -> Option<DeepLinkView> {
    match link {
        Some(l) => Some(l@),
        None => None,
    }
}

/// Looks a parameter up. Where it stands more than once, the last one counts.
pub fn find_param(pairs: &Vec<(String, String)>, name: &str) -> (value: Option<String>)
    ensures
        match value {
            Some(v) => param(params_view(pairs@), name@) == Some(v@),
            None => param(params_view(pairs@), name@) is None,
        },
{
    let ghost params = params_view(pairs@);
    let mut i: usize = pairs.len();
    assert(params.take(i as int) =~= params);
    while i > 0
        invariant
            i <= pairs.len(),
            params == params_view(pairs@),
            param(params, name@) == param(params.take(i as int), name@),
        decreases i,
    {
        i -= 1;
        assert(params.take(i + 1).drop_last() =~= params.take(i as int));
        if same_text(pairs[i].0.as_str(), name) {
            return Some(pairs[i].1.clone());
        }
    }
    None
}

/// Reads what the query of a deep link says.
pub fn read_link(pairs: &Vec<(String, String)>) -> (link: Option<DeepLink>)
    ensures
        link_view(link) == link_of(params_view(pairs@)),
{
    match find_param(pairs, "nonce") {
        Some(nonce) => {
            let user_id = match find_param(pairs, "userId") {
                Some(id) => id,
                None => String::new(),
            };
            let org_id = match find_param(pairs, "orgId") {
                Some(id) => id,
                None => String::new(),
            };
            Some(DeepLink { nonce, user_id, org_id })
        },
        None => None,
    }
}

/// Reads the payload of a deep-link event: a JSON list of links, of which the first
/// counts. Anything else says nothing.
pub fn read_payload(payload: &str) -> (link: Option<DeepLink>)
    ensures
        link_view(link) == payload_link(payload@),
{
    match parse_strings(payload) {
        Some(links) => if links.len() > 0 {
            match parse_url(links[0].as_str()) {
                Some(address) => read_link(&query_pairs(&address)),
                None => None,
            }
        } else {
            None
        },
        None => None,
    }
}

/// A parameter that is given again has the new value, and no other parameter
/// changes.
pub proof fn law_last_param_counts(
    params: Params,
    name: Seq<char>,
    value: Seq<char>,
    other: Seq<char>,
)
    ensures
        param(params.push((name, value)), name) == Some(value),
        other != name ==> param(params.push((name, value)), other) == param(params, other),
{
    assert(params.push((name, value)).drop_last() =~= params);
}

/// A query without parameters has none, and a parameter that is found stands there: with
/// that value, and with no later one of its name.
pub proof fn law_params_are_found_where_they_stand(params: Params, name: Seq<char>)
    ensures
        match param(params, name) {
            Some(value) => exists|i: int|
                {
                    &&& 0 <= i < params.len()
                    &&& #[trigger] params[i] == (name, value)
                    &&& forall|j: int| i < j < params.len() ==> (#[trigger] params[j]).0 != name
                },
            None => forall|i: int| 0 <= i < params.len() ==> (#[trigger] params[i]).0 != name,
        },
    decreases params.len(),
{
    if params.len() > 0 {
        if params.last().0 == name {
            assert(params[params.len() - 1] == (name, params.last().1));
        } else {
            let fewer = params.drop_last();
            law_params_are_found_where_they_stand(fewer, name);
            match param(fewer, name) {
                Some(value) => {
                    let i = choose|i: int|
                        {
                            &&& 0 <= i < fewer.len()
                            &&& #[trigger] fewer[i] == (name, value)
                            &&& forall|j: int|
                                i < j < fewer.len() ==> (#[trigger] fewer[j]).0 != name
                        };
                    assert(params[i] == (name, value));
                    assert forall|j: int| i < j < params.len() implies (#[trigger] params[j]).0
                        != name by {
                        if j < fewer.len() {
                            assert(params[j] == fewer[j]);
                        }
                    }
                },
                None => {
                    assert forall|i: int| 0 <= i < params.len() implies (#[trigger] params[i]).0
                        != name by {
                        if i < fewer.len() {
                            assert(params[i] == fewer[i]);
                        }
                    }
                },
            }
        }
    }
}

/// A deep link says something exactly where it has a nonce. It says the nonce, the user
/// and the organisation, as they stand in it; the user and the organisation are empty
/// where they do not.
pub proof fn law_links_say_what_stands_in_them(params: Params)
    ensures
        link_of(params) is Some <==> param(params, "nonce"@) is Some,
        link_of(params) matches Some(link) ==> {
            &&& param(params, "nonce"@) == Some(link.nonce)
            &&& param(params, "userId"@) is Some ==> param(params, "userId"@) == Some(link.user_id)
            &&& param(params, "userId"@) is None ==> link.user_id.len() == 0
            &&& param(params, "orgId"@) is Some ==> param(params, "orgId"@) == Some(link.org_id)
            &&& param(params, "orgId"@) is None ==> link.org_id.len() == 0
        },
{
}

/// The first of the links in a payload is read, and no other. A payload that is no list
/// of texts, or an empty one, says nothing, and neither does a first link that is no
/// address.
pub proof fn law_the_first_link_counts(payload: &str, link: Option<DeepLink>)
    requires
        call_ensures(read_payload, (payload,), link),
    ensures
        match strings_read(payload@) {
            Some(links) => if links.len() > 0 {
                match query_read(links[0]) {
                    Some(params) => match link {
                        Some(l) => {
                            &&& param(params, "nonce"@) == Some(l.nonce@)
                            &&& text_or_empty(param(params, "userId"@)) == l.user_id@
                            &&& text_or_empty(param(params, "orgId"@)) == l.org_id@
                        },
                        None => param(params, "nonce"@) is None,
                    },
                    None => link is None,
                }
            } else {
                link is None
            },
            None => link is None,
        },
{
}

/// Parameters are looked up and links are read as their contents say.
pub proof fn law_links_are_read(
    pairs: &Vec<(String, String)>,
    name: &str,
    value: Option<String>,
    link: Option<DeepLink>,
)
    requires
        call_ensures(find_param, (pairs, name), value),
        call_ensures(read_link, (pairs,), link),
    ensures
        value is None <==> forall|i: int|
            0 <= i < pairs@.len() ==> (#[trigger] pairs@[i]).0@ != name@,
        value matches Some(v) ==> exists|i: int|
            {
                &&& 0 <= i < pairs@.len()
                &&& (#[trigger] pairs@[i]).0@ == name@
                &&& pairs@[i].1@ == v@
                &&& forall|j: int| i < j < pairs@.len() ==> (#[trigger] pairs@[j]).0@ != name@
            },
        link matches Some(l) ==> {
            &&& param(params_view(pairs@), "nonce"@) == Some(l.nonce@)
            &&& text_or_empty(param(params_view(pairs@), "userId"@)) == l.user_id@
            &&& text_or_empty(param(params_view(pairs@), "orgId"@)) == l.org_id@
        },
        link is None <==> param(params_view(pairs@), "nonce"@) is None,
{
    let params = params_view(pairs@);
    law_params_are_found_where_they_stand(params, name@);
    assert forall|i: int| 0 <= i < pairs@.len() implies #[trigger] params[i] == (
        pairs@[i].0@,
        pairs@[i].1@,
    ) by {}
    match value {
        Some(v) => {
            let i = choose|i: int|
                {
                    &&& 0 <= i < params.len()
                    &&& #[trigger] params[i] == (name@, v@)
                    &&& forall|j: int| i < j < params.len() ==> (#[trigger] params[j]).0 != name@
                };
            assert(pairs@[i].0@ == name@);
            assert forall|j: int| i < j < pairs@.len() implies (#[trigger] pairs@[j]).0@ != name@ by {
                assert(params[j].0 == pairs@[j].0@);
            }
        },
        None => {
            assert forall|i: int| 0 <= i < pairs@.len() implies (#[trigger] pairs@[i]).0@
                != name@ by {
                assert(params[i].0 == pairs@[i].0@);
            }
        },
    }
}

} // verus!
