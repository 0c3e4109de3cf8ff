//! HTTP request methods.

use vstd::prelude::*;

use crate::text::{eq_upper, lower_char, upper, upper_char};

verus! {

/// A request method as used on Request objects.
#[derive(Debug, Clone, Copy, PartialEq, Eq, Hash, Structural)]
pub enum Method {
    Head,
    Get,
    Post,
    Put,
    Patch,
    Delete,
    Options,
    Connect,
    Trace,
}

impl Method {
    /// The canonical (upper-case) name of the method.
    pub open spec fn name(self) -> Seq<char> {
        match self {
            Method::Head => "HEAD"@,
            Method::Get => "GET"@,
            Method::Post => "POST"@,
            Method::Put => "PUT"@,
            Method::Patch => "PATCH"@,
            Method::Delete => "DELETE"@,
            Method::Options => "OPTIONS"@,
            Method::Connect => "CONNECT"@,
            Method::Trace => "TRACE"@,
        }
    }

    /// Every method, in declaration order.
    pub open spec fn spec_all() -> Seq<Method> {
        seq![
            Method::Head,
            Method::Get,
            Method::Post,
            Method::Put,
            Method::Patch,
            Method::Delete,
            Method::Options,
            Method::Connect,
            Method::Trace,
        ]
    }

    /// The method named by an upper-cased string; any other string names `Get`.
    pub open spec fn from_upper(u: Seq<char>) -> Method {
        if u == "HEAD"@ {
            Method::Head
        } else if u == "POST"@ {
            Method::Post
        } else if u == "PUT"@ {
            Method::Put
        } else if u == "PATCH"@ {
            Method::Patch
        } else if u == "DELETE"@ {
            Method::Delete
        } else if u == "OPTIONS"@ {
            Method::Options
        } else if u == "CONNECT"@ {
            Method::Connect
        } else if u == "TRACE"@ {
            Method::Trace
        } else {
            Method::Get
        }
    }

    /// The method a string names, compared without regard to ASCII case.
    pub open spec fn parsed(s: Seq<char>) -> Method {
        Method::from_upper(upper(s))
    }

    /// Returns every method, each once, in declaration order.
    pub fn all() -> (v: Vec<Method>)
        ensures
            v@ == Method::spec_all(),
    {
        let v = vec![
            Method::Head,
            Method::Get,
            Method::Post,
            Method::Put,
            Method::Patch,
            Method::Delete,
            Method::Options,
            Method::Connect,
            Method::Trace,
        ];
        assert(v@ =~= Method::spec_all());
        v
    }

    /// The canonical upper-case name of the method, e.g. `"GET"`.
    pub fn as_str(&self) -> (s: &'static str)
        ensures
            s@ == self.name(),
    {
        match self {
            Method::Head => "HEAD",
            Method::Get => "GET",
            Method::Post => "POST",
            Method::Put => "PUT",
            Method::Patch => "PATCH",
            Method::Delete => "DELETE",
            Method::Options => "OPTIONS",
            Method::Connect => "CONNECT",
            Method::Trace => "TRACE",
        }
    }

    /// The canonical name as an owned string.
    pub fn to_string(&self) -> (s: String)
        ensures
            s@ == self.name(),
    {
        self.as_str().to_owned()
    }

    /// Reads a method name without regard to ASCII case; unknown names give `Get`.
    pub fn from_name(m: &str) -> (r: Method)
        ensures
            r == Method::parsed(m@),
    {
        if eq_upper(m, "HEAD") {
            Method::Head
        } else if eq_upper(m, "POST") {
            Method::Post
        } else if eq_upper(m, "PUT") {
            Method::Put
        } else if eq_upper(m, "PATCH") {
            Method::Patch
        } else if eq_upper(m, "DELETE") {
            Method::Delete
        } else if eq_upper(m, "OPTIONS") {
            Method::Options
        } else if eq_upper(m, "CONNECT") {
            Method::Connect
        } else if eq_upper(m, "TRACE") {
            Method::Trace
        } else {
            Method::Get
        }
    }
}

impl Default for Method {
    fn default() -> (m: Self)
        ensures
            m == Method::Get,
    {
        Method::Get
    }
}

impl From<String> for Method {
    fn from(m: String) -> (r: Method)
        ensures
            r == Method::parsed(m@),
    {
        Method::from_name(m.as_str())
    }
}

impl vstd::std_specs::convert::FromSpecImpl<String> for Method {
    open spec fn obeys_from_spec() -> bool {
        true
    }

    open spec fn from_spec(m: String) -> Method {
        Method::parsed(m@)
    }
}

impl From<Method> for String {
    fn from(m: Method) -> (s: String)
        ensures
            s@ == m.name(),
    {
        m.to_string()
    }
}

impl vstd::std_specs::convert::FromSpecImpl<Method> for String {
    /// The owned name is described by its contents only.
    open spec fn obeys_from_spec() -> bool {
        false
    }

    open spec fn from_spec(m: Method) -> String {
        vstd::pervasive::arbitrary()
    }
}

/// Reading the canonical name of a method gives the method back.
pub proof fn lemma_name_round_trip(m: Method)
    ensures
        Method::parsed(m.name()) == m,
{
    reveal_strlit("HEAD");
    reveal_strlit("GET");
    reveal_strlit("POST");
    reveal_strlit("PUT");
    reveal_strlit("PATCH");
    reveal_strlit("DELETE");
    reveal_strlit("OPTIONS");
    reveal_strlit("CONNECT");
    reveal_strlit("TRACE");
    assert(upper(m.name()) =~= m.name());
    let h = "HEAD"@;
    let g = "GET"@;
    let po = "POST"@;
    let pu = "PUT"@;
    let pa = "PATCH"@;
    let d = "DELETE"@;
    let o = "OPTIONS"@;
    let c = "CONNECT"@;
    let t = "TRACE"@;
    // Distinct names differ in length or in their first two characters.
    assert(h[0] != g[0] && h[0] != po[0] && h[0] != pu[0] && h[0] != d[0]);
    assert(po[1] != pu[1] && po[1] != pa[1] && pu[1] != pa[1]);
    assert(o[0] != h[0] && c[0] != h[0] && t[0] != h[0]);
    match m {
        Method::Get => {
            assert(g != h && g != po && g != pu && g != pa && g != d && g != o && g != c && g != t);
        },
        _ => {},
    }
}

/// Reading a method name ignores ASCII case: a name, its upper-cased form and
/// its lower-cased form all name the same method.
pub proof fn lemma_parse_ignores_case(s: Seq<char>)
    ensures
        Method::parsed(upper(s)) == Method::parsed(s),
        Method::parsed(Seq::new(s.len(), |i: int| lower_char(s[i]))) == Method::parsed(s),
{
    let lowered = Seq::new(s.len(), |i: int| lower_char(s[i]));
    assert forall|i: int| 0 <= i < s.len() implies upper_char(upper_char(s[i])) == upper_char(s[i])
        && upper_char(lower_char(s[i])) == upper_char(s[i]) by {
        let c = s[i];
        let n = c as u32;
        if 'a' <= c && c <= 'z' {
            assert(97 <= n <= 122);
            assert((((n - 32) as u32) as char) as u32 == n - 32);
        }
        if 'A' <= c && c <= 'Z' {
            assert(65 <= n <= 90);
            assert((((n + 32) as u32) as char) as u32 == n + 32);
        }
    }
    assert(upper(upper(s)) =~= upper(s));
    assert(upper(lowered) =~= upper(s));
}

/// `Method::all` lists every method, and none twice.
pub proof fn lemma_all_lists_each_once(m: Method)
    ensures
        Method::spec_all().contains(m),
        Method::spec_all().len() == 9,
        forall|i: int, j: int|
            0 <= i < j < Method::spec_all().len() ==> Method::spec_all()[i] != Method::spec_all()[j],
{
    let all = Method::spec_all();
    match m {
        Method::Head => assert(all[0] == m),
        Method::Get => assert(all[1] == m),
        Method::Post => assert(all[2] == m),
        Method::Put => assert(all[3] == m),
        Method::Patch => assert(all[4] == m),
        Method::Delete => assert(all[5] == m),
        Method::Options => assert(all[6] == m),
        Method::Connect => assert(all[7] == m),
        Method::Trace => assert(all[8] == m),
    }
}

} // verus!
