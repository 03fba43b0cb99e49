//! Bearer-token authorization of requests.

use vstd::prelude::*;
use vstd::string::*;

verus! {

/// The check that a request carries the access token.
pub struct TokenAuthorization {
    token: String,
    /// What the `Authorization` header has to say.
    expected: String,
    /// The token holds no space.
    plain: bool,
}

/// Tells whether a request with this `Authorization` header carries
/// `token`: the header is the word `Bearer`, one space and the token, and
/// nothing else. A token that holds a space cannot be carried.
pub open spec fn carries(token: Seq<char>, header: Seq<char>) -> bool {
    header == "Bearer "@ + token && !token.contains(' ')
}

/// Tells whether a request is let through: every `OPTIONS` request is, any
/// other only if it has an `Authorization` header that carries the token.
pub open spec fn lets_through(token: Seq<char>, method: Seq<char>, header: Option<Seq<char>>) -> bool {
    method == "OPTIONS"@ || (header matches Some(h) && carries(token, h))
}

impl TokenAuthorization {
    /// The token that requests have to carry.
    pub closed spec fn token(&self) -> Seq<char> {
        self.token@
    }

    #[verifier::type_invariant]
    spec fn well_formed(&self) -> bool {
        &&& self.expected@ == "Bearer "@ + self.token@
        &&& self.plain == !self.token@.contains(' ')
    }

    /// The check for the access token `token`.
    pub fn new(token: &str) -> (authorization: TokenAuthorization)
        ensures
            authorization.token() == token@,
    {
        let mut expected = "Bearer ".to_owned();
        expected.append(token);
        let n = token.unicode_len();
        let mut plain = true;
        let mut i: usize = 0;
        while i < n
            invariant
                i <= n,
                n == token@.len(),
                plain == forall|j: int| 0 <= j < i ==> token@[j] != ' ',
            decreases n - i,
        {
            if token.get_char(i) == ' ' {
                plain = false;
            }
            i += 1;
        }
        assert(plain == !token@.contains(' '));
        TokenAuthorization { token: token.to_owned(), expected, plain }
    }

    /// Tells whether a request with the method `method` and the given
    /// `Authorization` header, if it has one, is let through.
    pub fn authorizes(&self, method: &str, header: Option<&str>) -> (yes: bool)
        ensures
            yes == lets_through(self.token(), method@, match header {
                Some(h) => Some(h@),
                None => None,
            }),
    {
        proof {
            use_type_invariant(self);
        }
        if method.to_owned() == "OPTIONS".to_owned() {
            return true;
        }
        match header {
            Some(h) => self.plain && h.to_owned() == self.expected,
            None => false,
        }
    }
}

} // verus!
