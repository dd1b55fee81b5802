//! A Set-Cookie header value, built attribute by attribute.

use vstd::prelude::*;
use vstd::string::StringExecFns;
use crate::text::{dec_digits, u64_to_string};

verus! {

/// The serialized form of a cookie: `name=value` followed by its attributes.
pub open spec fn cookie_string(c: Cookie) -> Seq<char> {
    c.name@ + "="@ + c.value@ + (if c.http_only {
        "; HttpOnly"@
    } else {
        Seq::<char>::empty()
    }) + (if c.secure {
        "; Secure"@
    } else {
        Seq::<char>::empty()
    }) + "; SameSite="@ + c.same_site@ + "; Path="@ + c.path@ + (match c.max_age {
        Some(age) => "; Max-Age="@ + dec_digits(age as nat),
        None => Seq::<char>::empty(),
    })
}

pub struct Cookie {
    pub name: String,
    pub value: String,
    pub http_only: bool,
    pub secure: bool,
    pub same_site: String,
    pub path: String,
    /// Lifetime in seconds; absent for a session cookie.
    pub max_age: Option<u64>,
}

impl Cookie {
    /// A cookie with the hardened defaults: HttpOnly, Secure, SameSite=Lax,
    /// path `/`, no Max-Age.
    pub fn new(name: String, value: String) -> (r: Self)
        ensures
            r.name == name,
            r.value == value,
            r.http_only,
            r.secure,
            r.same_site@ == "Lax"@,
            r.path@ == "/"@,
            r.max_age is None,
    {
        Self {
            name,
            value,
            http_only: true,
            secure: true,
            same_site: String::from_str("Lax"),
            path: String::from_str("/"),
            max_age: None,
        }
    }

    pub fn set_http_only(&mut self, http_only: bool) -> (r: &mut Self)
        ensures
            *r == (Cookie { http_only, ..*old(self) }),
            *final(self) == *final(r),
    {
        self.http_only = http_only;
        self
    }

    pub fn set_secure(&mut self, secure: bool) -> (r: &mut Self)
        ensures
            *r == (Cookie { secure, ..*old(self) }),
            *final(self) == *final(r),
    {
        self.secure = secure;
        self
    }

    pub fn set_same_site(&mut self, same_site: String) -> (r: &mut Self)
        ensures
            *r == (Cookie { same_site, ..*old(self) }),
            *final(self) == *final(r),
    {
        self.same_site = same_site;
        self
    }

    pub fn set_path(&mut self, path: String) -> (r: &mut Self)
        ensures
            *r == (Cookie { path, ..*old(self) }),
            *final(self) == *final(r),
    {
        self.path = path;
        self
    }

    pub fn set_max_age(&mut self, max_age: u64) -> (r: &mut Self)
        ensures
            *r == (Cookie { max_age: Some(max_age), ..*old(self) }),
            *final(self) == *final(r),
    {
        self.max_age = Some(max_age);
        self
    }

    /// The value this cookie puts on the wire.
    pub fn to_header_string(&self) -> (r: String)
        ensures
            r@ == cookie_string(*self),
    {
        let mut s = String::new();
        s.append(self.name.as_str());
        s.append("=");
        s.append(self.value.as_str());
        if self.http_only {
            s.append("; HttpOnly");
        }
        if self.secure {
            s.append("; Secure");
        }
        s.append("; SameSite=");
        s.append(self.same_site.as_str());
        s.append("; Path=");
        s.append(self.path.as_str());
        match self.max_age {
            Some(age) => {
                s.append("; Max-Age=");
                let digits = u64_to_string(age);
                s.append(digits.as_str());
            }
            None => {}
        }
        proof {
            assert(s@ =~= cookie_string(*self));
        }
        s
    }
}

} // verus!
