use vstd::prelude::*;
use vstd::string::*;
use crate::text::{folded, same_text_ignoring_case};

verus! {

/// The header that names the method asked for.
pub const SERVER_METHOD: &'static str = "Server-Method";

/// The header that may carry the shared secret.
pub const PROTECTED_KEY: &'static str = "Protected-Key";

/// One header line of a request: its name and the bytes of its value.
#[derive(Debug)]
pub struct Header {
    pub name: String,
    pub value: Vec<u8>,
}

/// What a [`Header`] stands for in contracts.
pub struct HeaderModel {
    pub name: Seq<char>,
    pub value: Seq<u8>,
}

impl View for Header {
    type V = HeaderModel;

    open spec fn view(&self) -> HeaderModel {
        HeaderModel { name: self.name@, value: self.value@ }
    }
}

/// The models of the headers of a list, in order.
pub open spec fn header_models(headers: Seq<Header>) -> Seq<HeaderModel> {
    Seq::new(headers.len(), |i: int| headers[i]@)
}

/// The value of the first header of this name. Header names are told apart
/// without regard to the case of ASCII letters.
pub open spec fn find_header(headers: Seq<HeaderModel>, name: Seq<char>) -> Option<Seq<u8>>
    decreases headers.len(),
{
    if headers.len() == 0 {
        None
    } else if folded(headers[0].name) == folded(name) {
        Some(headers[0].value)
    } else {
        find_header(headers.skip(1), name)
    }
}

/// Whether a byte is a visible ASCII character, a blank or a tab.
pub open spec fn is_visible_ascii(byte: u8) -> bool {
    32 <= byte < 127 || byte == 9
}

/// The text of a header value: its bytes as characters, where each of them
/// is visible ASCII.
pub open spec fn header_text_of(value: Seq<u8>) -> Option<Seq<char>> {
    if forall|i: int| 0 <= i < value.len() ==> is_visible_ascii(#[trigger] value[i]) {
        Some(value.map_values(|byte: u8| byte as char))
    } else {
        None
    }
}

/// `HeaderValue::from_bytes` and, on what it gives, `HeaderValue::to_str` of
/// `http`, as `hyper` hands it on. The first takes any byte from 32 on but
/// 127, and the tab; the second gives the text where every byte is visible
/// ASCII, a blank or a tab. So the text comes out exactly where each byte is
/// one of those.
#[verifier::external_body]
pub(crate) fn header_text(value: &[u8]) -> (text: Option<String>)
    ensures
        match text {
            Some(t) => header_text_of(value@) == Some(t@),
            None => header_text_of(value@) is None,
        },
{
    match hyper::header::HeaderValue::from_bytes(value) {
        Ok(held) => held.to_str().ok().map(String::from),
        Err(_) => None,
    }
}

/// The value of the first header of this name.
pub fn header<'a>(headers: &'a Vec<Header>, name: &str) -> (value: Option<&'a Vec<u8>>)
    ensures
        match value {
            Some(bytes) => find_header(header_models(headers@), name@) == Some(bytes@),
            None => find_header(header_models(headers@), name@) is None,
        },
{
    let ghost all = header_models(headers@);
    assert(all.skip(0) =~= all);
    let mut i: usize = 0;
    while i < headers.len()
        invariant
            i <= headers.len(),
            all == header_models(headers@),
            find_header(all, name@) == find_header(all.skip(i as int), name@),
        decreases headers.len() - i,
    {
        assert(all.skip(i as int)[0] == headers[i as int]@);
        assert(all.skip(i as int).skip(1) =~= all.skip(i + 1));
        if same_text_ignoring_case(headers[i].name.as_str(), name) {
            return Some(&headers[i].value);
        }
        i += 1;
    }
    None
}

/// The name of the method that a request asks for.
#[derive(Debug)]
pub struct ServerMethod {
    name: String,
}

impl View for ServerMethod {
    type V = Seq<char>;

    closed spec fn view(&self) -> Seq<char> {
        self.name@
    }
}

/// The method that a request names: the text of its `Server-Method` header
/// where it has one, else its path without the first character. A header
/// that is no text names no method.
pub open spec fn method_named(headers: Seq<HeaderModel>, path: Seq<char>) -> Option<Seq<char>> {
    match find_header(headers, SERVER_METHOD@) {
        Some(value) => header_text_of(value),
        None => Some(
            if path.len() > 0 {
                path.skip(1)
            } else {
                path
            },
        ),
    }
}

impl ServerMethod {
    pub fn name(&self) -> (name: &str)
        ensures
            name@ == self@,
    {
        self.name.as_str()
    }

    /// The method that a request with these headers and this path names.
    pub fn resolve(headers: &Vec<Header>, path: &str) -> (method: Option<ServerMethod>)
        ensures
            match method {
                Some(m) => method_named(header_models(headers@), path@) == Some(m@),
                None => method_named(header_models(headers@), path@) is None,
            },
    {
        match header(headers, SERVER_METHOD) {
            Some(value) => match header_text(value.as_slice()) {
                Some(name) => Some(ServerMethod { name }),
                None => None,
            },
            None => {
                let length = path.unicode_len();
                if length > 0 {
                    let rest = path.substring_char(1, length);
                    assert(rest@ =~= path@.skip(1));
                    Some(ServerMethod { name: rest.to_owned() })
                } else {
                    Some(ServerMethod { name: path.to_owned() })
                }
            },
        }
    }
}

} // verus!
