//! `application/x-www-form-urlencoded` queries and the token-endpoint
//! requests built from them.
use vstd::prelude::*;
use vstd::string::*;

verus! {

/// What the form-urlencoded byte serializer makes of a string.
pub uninterp spec fn form_encoded(s: Seq<char>) -> Seq<char>;

/// Characters the serializer leaves as they are: `*`, `-`, `.`, `_`, ASCII
/// digits and ASCII letters.
pub open spec fn form_unchanged(c: char) -> bool {
    c == '*' || c == '-' || c == '.' || c == '_' || ('0' <= c && c <= '9') || ('A' <= c && c
        <= 'Z') || ('a' <= c && c <= 'z')
}

/// The upper-case hexadecimal digit of `n`, for `0 <= n < 16`.
pub open spec fn hex_digit(n: int) -> char {
    seq!['0', '1', '2', '3', '4', '5', '6', '7', '8', '9', 'A', 'B', 'C', 'D', 'E', 'F'][n]
}

/// Whether every character is ASCII, so that it is its own UTF-8 byte.
pub open spec fn is_ascii_text(s: Seq<char>) -> bool {
    forall|i: int| 0 <= i < s.len() ==> (#[trigger] s[i] as u32) < 128
}

/// What the serializer makes of one ASCII character: itself where it is left
/// unchanged, `+` for a space, else `%` and two upper-case hex digits.
pub open spec fn ascii_char_encoded(c: char) -> Seq<char> {
    if form_unchanged(c) {
        seq![c]
    } else if c == ' ' {
        seq!['+']
    } else {
        seq!['%', hex_digit((c as u32) as int / 16), hex_digit((c as u32) as int % 16)]
    }
}

/// The serialization of an ASCII string, character by character.
pub open spec fn ascii_form_encoded(s: Seq<char>) -> Seq<char>
    decreases s.len(),
{
    if s.len() == 0 {
        Seq::empty()
    } else {
        ascii_form_encoded(s.drop_last()) + ascii_char_encoded(s.last())
    }
}

/// Relies on `url::form_urlencoded::byte_serialize`: the form-urlencoded
/// serialization of the string's UTF-8 bytes, which for ASCII text maps each
/// character on its own.
#[verifier::external_body]
fn form_encode(s: &str) -> (r: String)
    ensures
        r@ == form_encoded(s@),
        is_ascii_text(s@) ==> r@ == ascii_form_encoded(s@),
{
    url::form_urlencoded::byte_serialize(s.as_bytes()).collect()
}

/// A query as name and value strings.
pub type Pairs = Seq<(Seq<char>, Seq<char>)>;

/// The characters of each pair of `v`.
pub open spec fn pairs_view(v: Seq<(String, String)>) -> Pairs {
    v.map_values(|p: (String, String)| (p.0@, p.1@))
}

/// One pair of a query: encoded name, `=`, encoded value.
pub open spec fn encoded_pair(p: (Seq<char>, Seq<char>)) -> Seq<char> {
    form_encoded(p.0) + "="@ + form_encoded(p.1)
}

/// The encoded pairs, joined by `&`.
pub open spec fn encoded_query(pairs: Pairs) -> Seq<char>
    decreases pairs.len(),
{
    if pairs.len() == 0 {
        Seq::empty()
    } else if pairs.len() == 1 {
        encoded_pair(pairs[0])
    } else {
        encoded_query(pairs.drop_last()) + "&"@ + encoded_pair(pairs.last())
    }
}

/// A URL whose query is `pairs`, appended to `base`, a URL without a query.
pub open spec fn url_with_query(base: Seq<char>, pairs: Pairs) -> Seq<char> {
    base + "?"@ + encoded_query(pairs)
}

/// A pair of owned strings copied from borrowed ones.
pub fn pair(name: &str, value: &str) -> (r: (String, String))
    ensures
        r.0@ == name@,
        r.1@ == value@,
{
    (name.to_owned(), value.to_owned())
}

/// Encodes `pairs` as a form-urlencoded query, in order.
pub fn encode_query(pairs: &Vec<(String, String)>) -> (r: String)
    ensures
        r@ == encoded_query(pairs_view(pairs@)),
{
    let mut out = String::new();
    let mut i: usize = 0;
    while i < pairs.len()
        invariant
            i <= pairs.len(),
            out@ == encoded_query(pairs_view(pairs@).take(i as int)),
        decreases pairs.len() - i,
    {
        let ghost done = pairs_view(pairs@).take(i as int);
        let ghost next = pairs_view(pairs@).take(i as int + 1);
        assert(next.drop_last() =~= done);
        if i > 0 {
            out.append("&");
        }
        let name = form_encode(pairs[i].0.as_str());
        let value = form_encode(pairs[i].1.as_str());
        out.append(name.as_str());
        out.append("=");
        out.append(value.as_str());
        proof {
            if i == 0 {
                assert(out@ =~= encoded_pair(next[0]));
            } else {
                assert(out@ =~= encoded_query(done) + "&"@ + encoded_pair(next.last()));
            }
        }
        i = i + 1;
    }
    assert(pairs_view(pairs@).take(pairs.len() as int) =~= pairs_view(pairs@));
    out
}

/// A form-encoded POST request to a token endpoint.
pub struct TokenRequest {
    /// The endpoint.
    pub url: String,
    /// The form fields, in the order they are sent.
    pub params: Vec<(String, String)>,
}

impl TokenRequest {
    /// The form fields, as characters.
    pub open spec fn params_view(&self) -> Pairs {
        pairs_view(self.params@)
    }

    /// The request body: the form fields, form-urlencoded.
    pub fn body(&self) -> (r: String)
        ensures
            r@ == encoded_query(self.params_view()),
    {
        encode_query(&self.params)
    }
}

/// `base` followed by `?` and the encoded `pairs`.
pub fn build_url(base: &str, pairs: &Vec<(String, String)>) -> (r: String)
    ensures
        r@ == url_with_query(base@, pairs_view(pairs@)),
{
    let query = encode_query(pairs);
    let mut out = base.to_owned();
    out.append("?");
    out.append(query.as_str());
    out
}

} // verus!
