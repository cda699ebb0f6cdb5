//! The address of a receiver.

use vstd::prelude::*;
use vstd::string::*;

use crate::outside::{
    is_located, is_plain_path, join_url, joined_url, parse_url, parsed_url, server_text,
    stays_on_server,
};
use crate::text::{
    denotes, int_text, is_digit, law_numeral_denotes, law_numeral_round_trip, law_numerals_differ,
    push_int,
};

verus! {

/// An address as text. What `parse` and `sound` give is a URL in its
/// serialized form.
pub struct Endpoint {
    pub url: String,
}

impl View for Endpoint {
    type V = Seq<char>;

    open spec fn view(&self) -> Seq<char> {
        self.url@
    }
}

/// What the outcome of finding an address holds.
pub open spec fn endpoint_result(result: Result<Endpoint, String>) -> Result<Seq<char>, Seq<char>> {
    match result {
        Ok(endpoint) => Ok(endpoint@),
        Err(reason) => Err(reason@),
    }
}

/// The path of the sound socket of a session.
pub open spec fn sound_path(session: int) -> Seq<char> {
    "/kiwi/"@ + int_text(session) + "/SND"@
}

proof fn lemma_sound_path_is_plain(session: int)
    requires
        session >= 0,
    ensures
        is_plain_path(sound_path(session)),
{
    reveal_strlit("/kiwi/");
    reveal_strlit("/SND");
    let number = int_text(session);
    law_numeral_round_trip(session as nat);
    let path = sound_path(session);
    assert forall|i: int| 0 <= i < path.len() implies ({
        ||| #[trigger] path[i] == '/'
        ||| 'a' <= path[i] <= 'z'
        ||| 'A' <= path[i] <= 'Z'
        ||| '0' <= path[i] <= '9'
    }) by {
        if i < 6 {
            assert(path[i] == "/kiwi/"@[i]);
        } else if i < 6 + number.len() {
            assert(path[i] == number[i - 6]);
            assert(is_digit(number[i - 6]));
        } else {
            assert(path[i] == "/SND"@[i - 6 - number.len()]);
        }
    }
}

/// Between its two fixed parts the path of a session holds the session's
/// numeral and nothing else. So two sessions never have the same path.
pub proof fn law_sound_path_names_the_session(session: int, other: int)
    ensures
        ({
            let path = sound_path(session);
            let end = path.len() - 4;
            &&& end >= 6
            &&& path.take(6) == "/kiwi/"@
            &&& path.skip(end) == "/SND"@
            &&& denotes(path.subrange(6, end), session)
        }),
        sound_path(session) == sound_path(other) ==> session == other,
{
    reveal_strlit("/kiwi/");
    reveal_strlit("/SND");
    let path = sound_path(session);
    let end = path.len() - 4;
    assert(path.take(6) =~= "/kiwi/"@);
    assert(path.skip(end) =~= "/SND"@);
    assert(path.subrange(6, end) =~= int_text(session));
    assert(sound_path(other).subrange(6, sound_path(other).len() - 4) =~= int_text(other));
    law_numeral_denotes(session);
    if path == sound_path(other) {
        law_numerals_differ(session, other);
    }
}

/// What stands in front of the path of a URL is its scheme, a colon with two
/// slashes, and its authority; and it is found there whatever follows, as long
/// as it follows as the path, the query or the fragment does.
pub proof fn law_server_is_found(scheme: Seq<char>, authority: Seq<char>, rest: Seq<char>)
    requires
        scheme != "file"@,
        !scheme.contains(':'),
        forall|i: int|
            0 <= i < authority.len() ==> #[trigger] authority[i] != '/' && authority[i] != '?'
                && authority[i] != '#',
        rest.len() > 0 ==> rest[0] == '/' || rest[0] == '?' || rest[0] == '#',
    ensures
        ({
            let server = server_text(scheme, authority);
            let colon = scheme.len() as int;
            &&& server.len() == scheme.len() + 3 + authority.len()
            &&& server.take(colon) == scheme
            &&& server.subrange(colon, colon + 3) == "://"@
            &&& server.skip(colon + 3) == authority
            &&& is_located(server + rest, scheme, authority)
        }),
{
    reveal_strlit("://");
    let server = server_text(scheme, authority);
    let colon = scheme.len() as int;
    assert(server.take(colon) =~= scheme);
    assert(server.subrange(colon, colon + 3) =~= "://"@);
    assert(server.skip(colon + 3) =~= authority);
    assert((server + rest).subrange(0, server.len() as int) =~= server);
}

impl Endpoint {
    /// Reads an absolute URL; on failure, the reason.
    pub fn parse(input: &str) -> (endpoint: Result<Self, String>)
        ensures
            endpoint_result(endpoint) == parsed_url(input@),
    {
        match parse_url(input) {
            Ok(url) => Ok(Endpoint { url }),
            Err(reason) => Err(reason),
        }
    }

    /// The URL as text.
    pub fn as_str(&self) -> (url: &str)
        ensures
            url@ == self@,
    {
        self.url.as_str()
    }

    /// The address of the sound socket of a session on this receiver; on
    /// failure, the reason. The address ends in the session's path. Where this
    /// one has an authority and is no file, there is such an address, and it is
    /// on the same server.
    pub fn sound(&self, session: i32) -> (endpoint: Result<Self, String>)
        ensures
            endpoint_result(endpoint) == joined_url(self@, sound_path(session as int)),
            session >= 0 ==> (endpoint matches Ok(e) ==> sound_path(session as int).is_suffix_of(
                e@,
            )),
            session >= 0 ==> stays_on_server(
                parsed_url(self@),
                sound_path(session as int),
                endpoint_result(endpoint),
            ),
    {
        let mut path: String = "/kiwi/".to_owned();
        push_int(&mut path, session as i64);
        path.append("/SND");
        proof {
            if session >= 0 {
                lemma_sound_path_is_plain(session as int);
            }
        }
        match join_url(self.url.as_str(), path.as_str()) {
            Ok(url) => Ok(Endpoint { url }),
            Err(reason) => Err(reason),
        }
    }
}

} // verus!
