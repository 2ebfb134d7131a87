//! What the interceptor reads of an incoming request, and how it finds the
//! caller's credential in it.

use vstd::prelude::*;
use crate::text::{eq_ignore_ascii_case, equals, equals_ignore_ascii_case, text_of};

verus! {

/// Name under which a credential travels, as a header and as a cookie.
pub const CREDENTIAL_NAME: &'static str = "Authorization";

/// An HTTP method, identified by its token (`GET`, `POST`, ...). Tokens are
/// case-sensitive: two methods are the same exactly when their tokens are.
#[derive(Debug, PartialEq, Eq)]
pub struct Method {
    token: String,
}

impl View for Method {
    type V = Seq<char>;

    closed spec fn view(&self) -> Seq<char> {
        self.token@
    }
}

impl Clone for Method {
    fn clone(&self) -> (copy: Self)
        ensures
            copy == *self,
    {
        Method { token: self.token.clone() }
    }
}

impl Method {
    /// The method with the given token.
    pub fn new(token: &str) -> (method: Method)
        ensures
            method@ == token@,
    {
        Method { token: token.to_owned() }
    }

    /// The method's token.
    pub fn as_str(&self) -> (token: &str)
        ensures
            token@ == self@,
    {
        self.token.as_str()
    }

    /// Whether `self` and `other` are the same method.
    pub fn matches(&self, other: &Method) -> (same: bool)
        ensures
            same == (self@ == other@),
    {
        self.token == other.token
    }
}

/// One header line of a request.
#[derive(Debug, Clone, PartialEq, Eq)]
pub struct HeaderField {
    /// The header's name. Its case does not matter.
    pub name: String,
    /// The header's value, where it is visible ASCII text; `None` where it
    /// holds other bytes and so cannot be read as text.
    pub value: Option<String>,
}

/// Mathematical content of a [`HeaderField`].
pub ghost struct HeaderFieldView {
    pub name: Seq<char>,
    pub value: Option<Seq<char>>,
}

impl View for HeaderField {
    type V = HeaderFieldView;

    open spec fn view(&self) -> HeaderFieldView {
        HeaderFieldView { name: self.name@, value: text_of(self.value) }
    }
}

/// One cookie of a request.
#[derive(Debug, Clone, PartialEq, Eq)]
pub struct Cookie {
    /// The cookie's name, which is case-sensitive.
    pub name: String,
    pub value: String,
}

/// Mathematical content of a [`Cookie`].
pub ghost struct CookieView {
    pub name: Seq<char>,
    pub value: Seq<char>,
}

impl View for Cookie {
    type V = CookieView;

    open spec fn view(&self) -> CookieView {
        CookieView { name: self.name@, value: self.value@ }
    }
}

/// The part of a request that the interceptor reads: path, method, headers
/// and cookies, the last two in the order in which the request lists them.
#[derive(Debug, Clone, PartialEq, Eq)]
pub struct RequestHead {
    pub path: String,
    pub method: Method,
    pub headers: Vec<HeaderField>,
    pub cookies: Vec<Cookie>,
}

/// Mathematical content of a [`RequestHead`].
pub ghost struct RequestView {
    pub path: Seq<char>,
    pub method: Seq<char>,
    pub headers: Seq<HeaderFieldView>,
    pub cookies: Seq<CookieView>,
}

impl View for RequestHead {
    type V = RequestView;

    open spec fn view(&self) -> RequestView {
        RequestView {
            path: self.path@,
            method: self.method@,
            headers: self.headers@.map_values(|h: HeaderField| h@),
            cookies: self.cookies@.map_values(|c: Cookie| c@),
        }
    }
}

/// Whether a header of this name carries the credential.
pub open spec fn is_credential_header(name: Seq<char>) -> bool {
    eq_ignore_ascii_case(name, CREDENTIAL_NAME@)
}

/// The credential that the headers carry: the value of the first header
/// named `Authorization`, if that value is text. A first such header whose
/// value is not text hides any later one.
pub open spec fn header_credential(headers: Seq<HeaderFieldView>) -> Option<Seq<char>>
    decreases headers.len(),
{
    if headers.len() == 0 {
        None
    } else if is_credential_header(headers[0].name) {
        headers[0].value
    } else {
        header_credential(headers.drop_first())
    }
}

/// The credential that the cookies carry: the value of the first cookie
/// named exactly `Authorization`.
pub open spec fn cookie_credential(cookies: Seq<CookieView>) -> Option<Seq<char>>
    decreases cookies.len(),
{
    if cookies.len() == 0 {
        None
    } else if cookies[0].name == CREDENTIAL_NAME@ {
        Some(cookies[0].value)
    } else {
        cookie_credential(cookies.drop_first())
    }
}

/// The credential of a request: the header's if the headers carry one, else
/// the cookie's, else the empty text.
pub open spec fn credential_of(request: RequestView) -> Seq<char> {
    match header_credential(request.headers) {
        Some(text) => text,
        None => match cookie_credential(request.cookies) {
            Some(text) => text,
            None => Seq::empty(),
        },
    }
}

/// Header `i` is the first one named `Authorization`.
pub open spec fn is_first_credential_header(headers: Seq<HeaderFieldView>, i: int) -> bool {
    &&& 0 <= i < headers.len()
    &&& is_credential_header(headers[i].name)
    &&& forall|k: int| 0 <= k < i ==> !is_credential_header(#[trigger] headers[k].name)
}

/// Cookie `i` is the first one named `Authorization`.
pub open spec fn is_first_credential_cookie(cookies: Seq<CookieView>, i: int) -> bool {
    &&& 0 <= i < cookies.len()
    &&& cookies[i].name == CREDENTIAL_NAME@
    &&& forall|k: int| 0 <= k < i ==> (#[trigger] cookies[k]).name != CREDENTIAL_NAME@
}

/// The credential of the headers is the value of the first header named
/// `Authorization`, and there is none where no header has that name.
pub proof fn lemma_header_credential_is_first_match(headers: Seq<HeaderFieldView>)
    ensures
        forall|i: int| #[trigger]
            is_first_credential_header(headers, i) ==> header_credential(headers)
                == headers[i].value,
        (forall|i: int| 0 <= i < headers.len() ==> !is_credential_header(#[trigger] headers[i].name))
            ==> header_credential(headers) is None,
    decreases headers.len(),
{
    if headers.len() > 0 {
        let rest = headers.drop_first();
        lemma_header_credential_is_first_match(rest);
        assert forall|i: int| #[trigger]
            is_first_credential_header(headers, i) implies header_credential(headers)
            == headers[i].value by {
            if i > 0 {
                assert(!is_credential_header(headers[0].name));
                assert forall|k: int| 0 <= k < i - 1 implies !is_credential_header(
                    #[trigger] rest[k].name,
                ) by {
                    assert(rest[k] == headers[k + 1]);
                }
                assert(is_first_credential_header(rest, i - 1));
            }
        }
        if forall|i: int| 0 <= i < headers.len() ==> !is_credential_header(#[trigger] headers[i].name) {
            assert(!is_credential_header(headers[0].name));
            assert forall|i: int| 0 <= i < rest.len() implies !is_credential_header(
                #[trigger] rest[i].name,
            ) by {
                assert(rest[i] == headers[i + 1]);
            }
        }
    }
}

/// The credential of the cookies is the value of the first cookie named
/// `Authorization`, and there is none where no cookie has that name.
pub proof fn lemma_cookie_credential_is_first_match(cookies: Seq<CookieView>)
    ensures
        forall|i: int| #[trigger]
            is_first_credential_cookie(cookies, i) ==> cookie_credential(cookies) == Some(
                cookies[i].value,
            ),
        (forall|i: int| 0 <= i < cookies.len() ==> (#[trigger] cookies[i]).name != CREDENTIAL_NAME@)
            <==> cookie_credential(cookies) is None,
    decreases cookies.len(),
{
    if cookies.len() > 0 {
        let rest = cookies.drop_first();
        lemma_cookie_credential_is_first_match(rest);
        assert forall|i: int| #[trigger]
            is_first_credential_cookie(cookies, i) implies cookie_credential(cookies) == Some(
            cookies[i].value,
        ) by {
            if i > 0 {
                assert(cookies[0].name != CREDENTIAL_NAME@);
                assert forall|k: int| 0 <= k < i - 1 implies (#[trigger] rest[k]).name
                    != CREDENTIAL_NAME@ by {
                    assert(rest[k] == cookies[k + 1]);
                }
                assert(is_first_credential_cookie(rest, i - 1));
            }
        }
        if forall|i: int| 0 <= i < cookies.len() ==> (#[trigger] cookies[i]).name != CREDENTIAL_NAME@ {
            assert(cookies[0].name != CREDENTIAL_NAME@);
            assert forall|i: int| 0 <= i < rest.len() implies (#[trigger] rest[i]).name
                != CREDENTIAL_NAME@ by {
                assert(rest[i] == cookies[i + 1]);
            }
        }
        if cookie_credential(cookies) is None {
            assert(cookies[0].name != CREDENTIAL_NAME@);
            assert forall|i: int| 0 <= i < cookies.len() implies (#[trigger] cookies[i]).name
                != CREDENTIAL_NAME@ by {
                if i > 0 {
                    assert(rest[i - 1] == cookies[i]);
                }
            }
        }
    }
}

impl RequestHead {
    /// A request head with the given path and method, and no header or
    /// cookie yet.
    pub fn new(path: &str, method: Method) -> (request: RequestHead)
        ensures
            request@ == (RequestView {
                path: path@,
                method: method@,
                headers: Seq::empty(),
                cookies: Seq::empty(),
            }),
    {
        let request = RequestHead {
            path: path.to_owned(),
            method,
            headers: Vec::new(),
            cookies: Vec::new(),
        };
        assert(request@.headers =~= Seq::empty());
        assert(request@.cookies =~= Seq::empty());
        request
    }

    /// Adds a header with a text value after those already there.
    pub fn with_header(self, name: &str, value: &str) -> (request: RequestHead)
        ensures
            request@ == (RequestView {
                headers: self@.headers.push(HeaderFieldView { name: name@, value: Some(value@) }),
                ..self@
            }),
    {
        let mut request = self;
        request.headers.push(HeaderField { name: name.to_owned(), value: Some(value.to_owned()) });
        assert(request@.headers =~= self@.headers.push(
            HeaderFieldView { name: name@, value: Some(value@) },
        ));
        request
    }

    /// Adds a cookie after those already there.
    pub fn with_cookie(self, name: &str, value: &str) -> (request: RequestHead)
        ensures
            request@ == (RequestView {
                cookies: self@.cookies.push(CookieView { name: name@, value: value@ }),
                ..self@
            }),
    {
        let mut request = self;
        request.cookies.push(Cookie { name: name.to_owned(), value: value.to_owned() });
        assert(request@.cookies =~= self@.cookies.push(CookieView { name: name@, value: value@ }));
        request
    }

    /// The credential that the headers carry, if any.
    pub fn header_credential(&self) -> (found: Option<String>)
        ensures
            text_of(found) == header_credential(self@.headers),
    {
        let mut i: usize = 0;
        assert(self@.headers.skip(0) =~= self@.headers);
        while i < self.headers.len()
            invariant
                i <= self.headers.len(),
                header_credential(self@.headers) == header_credential(self@.headers.skip(i as int)),
            decreases self.headers.len() - i,
        {
            let ghost rest = self@.headers.skip(i as int);
            assert(rest[0] == self.headers@[i as int]@);
            assert(rest.drop_first() =~= self@.headers.skip(i + 1));
            if equals_ignore_ascii_case(self.headers[i].name.as_str(), CREDENTIAL_NAME) {
                return self.headers[i].value.clone();
            }
            i += 1;
        }
        None
    }

    /// The credential that the cookies carry, if any.
    pub fn cookie_credential(&self) -> (found: Option<String>)
        ensures
            text_of(found) == cookie_credential(self@.cookies),
    {
        let mut i: usize = 0;
        assert(self@.cookies.skip(0) =~= self@.cookies);
        while i < self.cookies.len()
            invariant
                i <= self.cookies.len(),
                cookie_credential(self@.cookies) == cookie_credential(self@.cookies.skip(i as int)),
            decreases self.cookies.len() - i,
        {
            let ghost rest = self@.cookies.skip(i as int);
            assert(rest[0] == self.cookies@[i as int]@);
            assert(rest.drop_first() =~= self@.cookies.skip(i + 1));
            if equals(self.cookies[i].name.as_str(), CREDENTIAL_NAME) {
                return Some(self.cookies[i].value.clone());
            }
            i += 1;
        }
        None
    }

    /// The credential of the request: the header's where there is one, else
    /// the cookie's, else the empty string.
    pub fn credential(&self) -> (token: String)
        ensures
            token@ == credential_of(self@),
    {
        match self.header_credential() {
            Some(text) => text,
            None => match self.cookie_credential() {
                Some(text) => text,
                None => String::new(),
            },
        }
    }
}

} // verus!
