//! The calls into other crates and into parts of std that have no
//! specification, each behind one small function whose contract is believed.

use vstd::prelude::*;
use vstd::utf8::*;
use byteorder::{BigEndian, ByteOrder, LittleEndian};
use rand::Rng;
use regex::Regex;
use url::Url;

use crate::sdr::kiwi::audio::{
    announcement, announces, is_gap, is_number, is_pointed_number, AUDIO_INIT_PATTERN,
};

verus! {

/// What `url::Url::parse` makes of a text: the serialized URL, or the message
/// of the error.
pub uninterp spec fn parsed_url(input: Seq<char>) -> Result<Seq<char>, Seq<char>>;

/// What `url::Url::join` makes of a serialized base URL and a reference: the
/// serialized URL, or the message of the error.
pub uninterp spec fn joined_url(base: Seq<char>, reference: Seq<char>) -> Result<
    Seq<char>,
    Seq<char>,
>;

/// The groups of the first match that `regex::Regex::captures` finds for a
/// pattern with three groups.
pub uninterp spec fn captured_groups(pattern: Seq<char>, text: Seq<char>) -> Option<
    (Seq<char>, Seq<char>, Seq<char>),
>;

/// A text as `{:?}` prints it: quoted, with escapes.
pub uninterp spec fn quoted_text(text: Seq<char>) -> Seq<char>;

/// What a result of two texts holds.
pub open spec fn result_text(result: Result<String, String>) -> Result<Seq<char>, Seq<char>> {
    match result {
        Ok(text) => Ok(text@),
        Err(message) => Err(message@),
    }
}

/// What three optional groups hold.
pub open spec fn group_texts(groups: Option<(String, String, String)>) -> Option<
    (Seq<char>, Seq<char>, Seq<char>),
> {
    match groups {
        Some(g) => Some((g.0@, g.1@, g.2@)),
        None => None,
    }
}

/// Whether a reference is an absolute path of ASCII letters, digits and
/// slashes that does not begin with two slashes.
pub open spec fn is_plain_path(reference: Seq<char>) -> bool {
    &&& reference.len() > 0
    &&& reference[0] == '/'
    &&& reference.len() > 1 ==> reference[1] != '/'
    &&& forall|i: int|
        0 <= i < reference.len() ==> {
            ||| #[trigger] reference[i] == '/'
            ||| 'a' <= reference[i] <= 'z'
            ||| 'A' <= reference[i] <= 'Z'
            ||| '0' <= reference[i] <= '9'
        }
}

/// Whether a URL that is no file has a scheme and an authority behind it, with
/// the path, the query or the fragment next, or nothing more.
pub open spec fn is_located(url: Seq<char>, scheme: Seq<char>, authority: Seq<char>) -> bool {
    let server = server_text(scheme, authority);
    &&& server.is_prefix_of(url)
    &&& url.len() > server.len() ==> ends_authority(url[server.len() as int])
    &&& scheme != "file"@
    &&& !scheme.contains(':')
    &&& forall|i: int| 0 <= i < authority.len() ==> !ends_authority(#[trigger] authority[i])
}

/// The part of a URL in front of its path.
pub open spec fn server_text(scheme: Seq<char>, authority: Seq<char>) -> Seq<char> {
    scheme + "://"@ + authority
}

/// Whether a character begins the path, the query or the fragment of a URL.
pub open spec fn ends_authority(c: char) -> bool {
    c == '/' || c == '?' || c == '#'
}

/// Whether a joined URL is the server of a base that has an authority, with
/// the reference behind it.
pub open spec fn stays_on_server(
    base: Result<Seq<char>, Seq<char>>,
    reference: Seq<char>,
    joined: Result<Seq<char>, Seq<char>>,
) -> bool {
    forall|scheme: Seq<char>, authority: Seq<char>|
        base is Ok && #[trigger] is_located(base->Ok_0, scheme, authority) ==> joined == Ok::<
            Seq<char>,
            Seq<char>,
        >(server_text(scheme, authority) + reference)
}

/// `url::Url::parse`, with the URL given as its serialization and the error as
/// its message. The result is a function of the text alone.
#[verifier::external_body]
pub(crate) fn parse_url(input: &str) -> (url: Result<String, String>)
    ensures
        result_text(url) == parsed_url(input@),
{
    match Url::parse(input) {
        Ok(url) => Ok(url.as_str().to_owned()),
        Err(error) => Err(error.to_string()),
    }
}

/// `url::Url::join`, on a base that is given as its serialization and read from
/// it; where it is no URL, the error is the one of reading it. The result is a
/// function of the two texts alone. A reference that is an absolute path
/// without anything to normalize replaces the base's path, query and fragment,
/// so the joined URL ends in it. Where the base has an authority and is no
/// file, there is a joined URL, and it keeps all that stands in front of the
/// path. For which other bases there is one is left to the name.
#[verifier::external_body]
pub(crate) fn join_url(base: &str, reference: &str) -> (url: Result<String, String>)
    ensures
        result_text(url) == joined_url(base@, reference@),
        is_plain_path(reference@) ==> (url matches Ok(joined) ==> reference@.is_suffix_of(
            joined@,
        )),
        is_plain_path(reference@) ==> stays_on_server(
            parsed_url(base@),
            reference@,
            result_text(url),
        ),
{
    match Url::parse(base).and_then(|base| base.join(reference)) {
        Ok(url) => Ok(url.as_str().to_owned()),
        Err(error) => Err(error.to_string()),
    }
}

/// `regex::Regex::captures` for the announcement pattern, with the three
/// groups as texts. The result is a function of the two texts alone. A match
/// is an announcement somewhere in the text whose numbers are the groups. A
/// text that as a whole is an announcement in ASCII digits with spaces between
/// its parts matches, and its groups are its numbers: the match begins at the
/// start, and each group reaches as far as its characters go.
#[verifier::external_body]
pub(crate) fn capture_groups(pattern: &str, text: &str) -> (groups: Option<
    (String, String, String),
>)
    requires
        pattern@ == AUDIO_INIT_PATTERN@,
    ensures
        group_texts(groups) == captured_groups(pattern@, text@),
        group_texts(groups) matches Some((init, rate, sample)) ==> announces(
            text@,
            init,
            rate,
            sample,
        ),
        forall|
            init: Seq<char>,
            first_gap: Seq<char>,
            rate: Seq<char>,
            second_gap: Seq<char>,
            sample: Seq<char>,
        |
            text@ == #[trigger] announcement(init, first_gap, rate, second_gap, sample)
                && is_number(init) && is_gap(first_gap) && is_number(rate) && is_gap(second_gap)
                && is_pointed_number(sample) ==> group_texts(groups) == Some((init, rate, sample)),
{
    Regex::new(pattern).unwrap().captures(text).map(
        |c| (c[1].to_owned(), c[2].to_owned(), c[3].to_owned()),
    )
}

/// `rand::Rng::gen_range` on the thread's generator: some number of the range,
/// not the same at each call. The first call on a thread seeds the generator
/// from the system.
#[verifier::external_body]
pub(crate) fn random_below(bound: i32) -> (number: i32)
    requires
        bound > 0,
    ensures
        0 <= number < bound,
{
    rand::thread_rng().gen_range(0..bound)
}

/// `byteorder::BigEndian::read_u16`: the number whose high byte comes first.
#[verifier::external_body]
pub(crate) fn read_u16_be(bytes: &[u8]) -> (number: u16)
    requires
        bytes@.len() >= 2,
    ensures
        number == bytes@[0] * 0x100 + bytes@[1],
{
    BigEndian::read_u16(bytes)
}

/// `byteorder::LittleEndian::read_u16`: the number whose low byte comes first.
#[verifier::external_body]
pub(crate) fn read_u16_le(bytes: &[u8]) -> (number: u16)
    requires
        bytes@.len() >= 2,
    ensures
        number == bytes@[0] + bytes@[1] * 0x100,
{
    LittleEndian::read_u16(bytes)
}

/// `byteorder::LittleEndian::read_u32`: the number whose lowest byte comes first.
#[verifier::external_body]
pub(crate) fn read_u32_le(bytes: &[u8]) -> (number: u32)
    requires
        bytes@.len() >= 4,
    ensures
        number == bytes@[0] + bytes@[1] * 0x100 + bytes@[2] * 0x1_0000 + bytes@[3] * 0x100_0000,
{
    LittleEndian::read_u32(bytes)
}

/// `String::from_utf8`: the text that the bytes encode, if they are UTF-8.
#[verifier::external_body]
pub(crate) fn text_from_utf8(bytes: Vec<u8>) -> (text: Option<String>)
    ensures
        text is Some <==> valid_utf8(bytes@),
        text matches Some(t) ==> t@ == decode_utf8(bytes@),
{
    String::from_utf8(bytes).ok()
}

/// `format!` with `{:?}` on a text, which quotes and escapes it. The result is
/// a function of the text alone.
#[verifier::external_body]
pub(crate) fn quote_text(text: &str) -> (quoted: String)
    ensures
        quoted@ == quoted_text(text@),
{
    format!("{:?}", text)
}

} // verus!
