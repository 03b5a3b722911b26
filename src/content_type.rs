use vstd::prelude::*;

use crate::request::HeaderSet;

verus! {

/// What `mime` makes of a header text: `None` where it is not a media
/// type, else its type, its subtype (without suffix or parameters) and its
/// `+suffix`, if any.
pub uninterp spec fn mime_parts_of(s: Seq<char>) -> Option<(Seq<char>, Seq<char>, Option<Seq<char>>)>;

/// A parsed media type; parameters (`;charset=...`) are not kept.
#[derive(Debug, Clone)]
pub struct ContentType {
    pub type_: String,
    pub subtype: String,
    pub suffix: Option<String>,
}

pub open spec fn opt_string_view(s: Option<String>) -> Option<Seq<char>> {
    match s {
        Some(x) => Some(x@),
        None => None,
    }
}

impl View for ContentType {
    type V = (Seq<char>, Seq<char>, Option<Seq<char>>);

    open spec fn view(&self) -> (Seq<char>, Seq<char>, Option<Seq<char>>) {
        (self.type_@, self.subtype@, opt_string_view(self.suffix))
    }
}

pub open spec fn opt_content_type_view(c: Option<ContentType>) -> Option<
    (Seq<char>, Seq<char>, Option<Seq<char>>),
> {
    match c {
        Some(x) => Some(x@),
        None => None,
    }
}

/// Relies on `<mime::Mime as FromStr>::from_str` and on `Mime::type_`,
/// `Mime::subtype` and `Mime::suffix`: the result depends on the text alone.
#[verifier::external_body]
fn parse_content_type(s: &str) -> (r: Option<ContentType>)
    ensures
        opt_content_type_view(r) == mime_parts_of(s@),
{
    match s.parse::<mime::Mime>() {
        Ok(m) => Some(ContentType {
            type_: m.type_().as_str().to_owned(),
            subtype: m.subtype().as_str().to_owned(),
            suffix: m.suffix().map(|x| x.as_str().to_owned()),
        }),
        Err(_) => None,
    }
}

/// A character's code with ASCII upper-case letters mapped to lower case.
pub open spec fn ascii_folded(c: char) -> u32 {
    if 65 <= (c as u32) && (c as u32) <= 90 {
        ((c as u32) + 32) as u32
    } else {
        c as u32
    }
}

/// Equality of two texts up to the case of ASCII letters.
pub open spec fn eq_ignore_case(a: Seq<char>, b: Seq<char>) -> bool {
    a.len() == b.len() && forall|i: int| 0 <= i < a.len() ==> ascii_folded(a[i]) == ascii_folded(b[i])
}

fn ascii_fold(c: char) -> (r: u32)
    ensures
        r == ascii_folded(c),
{
    let code = c as u32;
    if 65 <= code && code <= 90 {
        code + 32
    } else {
        code
    }
}

pub fn eq_ignore_ascii_case(a: &str, b: &str) -> (r: bool)
    ensures
        r == eq_ignore_case(a@, b@),
{
    let n = a.unicode_len();
    if n != b.unicode_len() {
        return false;
    }
    let mut i: usize = 0;
    while i < n
        invariant
            n == a@.len(),
            n == b@.len(),
            i <= n,
            forall|j: int| 0 <= j < i ==> ascii_folded(a@[j]) == ascii_folded(b@[j]),
        decreases n - i,
    {
        if ascii_fold(a.get_char(i)) != ascii_fold(b.get_char(i)) {
            return false;
        }
        i += 1;
    }
    true
}

/// The rule on a parsed media type: the type is `application` and the
/// subtype is `msgpack` or `x-msgpack`, or the suffix is `msgpack`; all
/// compared without regard to ASCII case.
pub open spec fn is_msgpack_parts(t: Seq<char>, subtype: Seq<char>, suffix: Option<Seq<char>>) -> bool {
    &&& eq_ignore_case(t, "application"@)
    &&& {
        ||| eq_ignore_case(subtype, "msgpack"@)
        ||| eq_ignore_case(subtype, "x-msgpack"@)
        ||| (suffix is Some && eq_ignore_case(suffix->0, "msgpack"@))
    }
}

impl ContentType {
    pub fn is_message_pack(&self) -> (r: bool)
        ensures
            r == is_msgpack_parts(self@.0, self@.1, self@.2),
    {
        if !eq_ignore_ascii_case(self.type_.as_str(), "application") {
            return false;
        }
        if eq_ignore_ascii_case(self.subtype.as_str(), "msgpack") || eq_ignore_ascii_case(
            self.subtype.as_str(),
            "x-msgpack",
        ) {
            return true;
        }
        match &self.suffix {
            Some(suffix) => eq_ignore_ascii_case(suffix.as_str(), "msgpack"),
            None => false,
        }
    }
}

/// A byte that a header value may hold and still be read as text.
pub open spec fn is_visible_ascii(b: u8) -> bool {
    (32 <= b && b < 127) || b == 9
}

pub open spec fn ascii_chars(v: Seq<u8>) -> Seq<char> {
    Seq::new(v.len(), |i: int| v[i] as char)
}

/// A header value read as text: only where every byte is visible ASCII or a tab.
pub open spec fn header_text(v: Seq<u8>) -> Option<Seq<char>> {
    if forall|i: int| 0 <= i < v.len() ==> is_visible_ascii(#[trigger] v[i]) {
        Some(ascii_chars(v))
    } else {
        None
    }
}

/// Whether a `Content-Type` value, if there is one, names MessagePack.
pub open spec fn is_msgpack_header(content_type: Option<Seq<u8>>) -> bool {
    match content_type {
        None => false,
        Some(v) => match header_text(v) {
            None => false,
            Some(s) => match mime_parts_of(s) {
                None => false,
                Some(p) => is_msgpack_parts(p.0, p.1, p.2),
            },
        },
    }
}

/// Relies on `std::str::from_utf8`: ASCII bytes are valid UTF-8 and read
/// back one character per byte.
#[verifier::external_body]
fn ascii_str(bytes: &[u8]) -> (r: Option<&str>)
    requires
        forall|i: int| 0 <= i < bytes@.len() ==> (#[trigger] bytes@[i]) < 128,
    ensures
        r is Some,
        r->0@ == ascii_chars(bytes@),
{
    std::str::from_utf8(bytes).ok()
}

pub fn header_value_to_str(v: &Vec<u8>) -> (r: Option<&str>)
    ensures
        match r {
            Some(s) => header_text(v@) == Some(s@),
            None => header_text(v@) is None,
        },
{
    let mut i: usize = 0;
    while i < v.len()
        invariant
            i <= v@.len(),
            forall|j: int| 0 <= j < i ==> is_visible_ascii(#[trigger] v@[j]),
        decreases v@.len() - i,
    {
        let b = v[i];
        if !((32 <= b && b < 127) || b == 9) {
            return None;
        }
        i += 1;
    }
    ascii_str(v.as_slice())
}

/// Whether the headers mark the body as MessagePack: a `Content-Type` is
/// present, reads as text, parses as a media type, and that media type
/// names MessagePack.
pub fn message_pack_content_type(headers: &HeaderSet) -> (r: bool)
    ensures
        r == is_msgpack_header(headers@),
{
    let value = match &headers.content_type {
        Some(v) => v,
        None => return false,
    };
    let text = match header_value_to_str(value) {
        Some(t) => t,
        None => return false,
    };
    match parse_content_type(text) {
        Some(ct) => ct.is_message_pack(),
        None => false,
    }
}


/// Texts equal up to ASCII case are interchangeable in `eq_ignore_case`.
pub proof fn eq_ignore_case_transitive(a: Seq<char>, b: Seq<char>, c: Seq<char>)
    requires
        eq_ignore_case(a, b),
    ensures
        eq_ignore_case(a, c) == eq_ignore_case(b, c),
{
    if eq_ignore_case(b, c) {
        assert forall|i: int| 0 <= i < a.len() implies ascii_folded(a[i]) == ascii_folded(c[i]) by {
            assert(ascii_folded(a[i]) == ascii_folded(b[i]));
        }
    }
    if eq_ignore_case(a, c) {
        assert forall|i: int| 0 <= i < b.len() implies ascii_folded(b[i]) == ascii_folded(c[i]) by {
            assert(ascii_folded(a[i]) == ascii_folded(b[i]));
        }
    }
}

/// Classification does not depend on the case of ASCII letters: two media
/// types whose type, subtype and suffix agree up to case are both MessagePack
/// or both not.
pub proof fn message_pack_rule_ignores_case(
    t1: Seq<char>,
    subtype1: Seq<char>,
    suffix1: Option<Seq<char>>,
    t2: Seq<char>,
    subtype2: Seq<char>,
    suffix2: Option<Seq<char>>,
)
    requires
        eq_ignore_case(t1, t2),
        eq_ignore_case(subtype1, subtype2),
        suffix1 is Some <==> suffix2 is Some,
        suffix1 is Some ==> eq_ignore_case(suffix1->0, suffix2->0),
    ensures
        is_msgpack_parts(t1, subtype1, suffix1) == is_msgpack_parts(t2, subtype2, suffix2),
{
    eq_ignore_case_transitive(t1, t2, "application"@);
    eq_ignore_case_transitive(subtype1, subtype2, "msgpack"@);
    eq_ignore_case_transitive(subtype1, subtype2, "x-msgpack"@);
    if suffix1 is Some {
        eq_ignore_case_transitive(suffix1->0, suffix2->0, "msgpack"@);
    }
}

/// A `Content-Type` names MessagePack exactly when it reads as text, `mime`
/// parses it, and the parsed type is `application` with subtype `msgpack`
/// or `x-msgpack` or suffix `msgpack`, up to ASCII case; a request without
/// the header is never MessagePack.
pub proof fn message_pack_header_rule(content_type: Option<Seq<u8>>)
    ensures
        content_type is None ==> !is_msgpack_header(content_type),
        is_msgpack_header(content_type) <==> {
            &&& content_type is Some
            &&& header_text(content_type->0) is Some
            &&& mime_parts_of(header_text(content_type->0)->0) is Some
            &&& {
                let p = mime_parts_of(header_text(content_type->0)->0)->0;
                is_msgpack_parts(p.0, p.1, p.2)
            }
        },
{
}

} // verus!
