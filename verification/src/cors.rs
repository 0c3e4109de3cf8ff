//! Cross-origin resource sharing (CORS) configuration.

use vstd::prelude::*;

use crate::cf::{lacks, split};
use crate::error::Error;
use crate::method::Method;
use crate::text::{decimal, decimal_string, join, join_strings, views};

verus! {

/// Cors struct, holding cors configuration.
#[derive(Debug, Clone)]
pub struct Cors {
    credentials: bool,
    max_age: Option<u32>,
    origins: Vec<String>,
    methods: Vec<Method>,
    allowed_headers: Vec<String>,
    exposed_headers: Vec<String>,
}

/// The configuration a `Cors` holds.
pub struct CorsView {
    pub credentials: bool,
    pub max_age: Option<u32>,
    pub origins: Seq<Seq<char>>,
    pub methods: Seq<Method>,
    pub allowed_headers: Seq<Seq<char>>,
    pub exposed_headers: Seq<Seq<char>>,
}

impl View for Cors {
    type V = CorsView;

    closed spec fn view(&self) -> CorsView {
        CorsView {
            credentials: self.credentials,
            max_age: self.max_age,
            origins: views(self.origins@),
            methods: self.methods@,
            allowed_headers: views(self.allowed_headers@),
            exposed_headers: views(self.exposed_headers@),
        }
    }
}

/// The names of the methods.
pub open spec fn method_names(m: Seq<Method>) -> Seq<Seq<char>> {
    Seq::new(m.len(), |i: int| m[i].name())
}

/// One header, set to the values joined with commas, when there are values.
pub open spec fn list_header(name: Seq<char>, values: Seq<Seq<char>>) -> Seq<(Seq<char>, Seq<char>)> {
    if values.len() > 0 {
        seq![(name, join(values, ","@))]
    } else {
        Seq::empty()
    }
}

/// The headers a configuration sets on a response, in the order they are set.
pub open spec fn cors_headers(c: CorsView) -> Seq<(Seq<char>, Seq<char>)> {
    (if c.credentials {
        seq![("Access-Control-Allow-Credentials"@, "true"@)]
    } else {
        Seq::empty()
    }) + (match c.max_age {
        Some(age) => seq![("Access-Control-Max-Age"@, decimal(age as nat))],
        None => Seq::empty(),
    }) + list_header("Access-Control-Allow-Origin"@, c.origins) + list_header(
        "Access-Control-Allow-Methods"@,
        method_names(c.methods),
    ) + list_header("Access-Control-Allow-Headers"@, c.allowed_headers) + list_header(
        "Access-Control-Expose-headers"@,
        c.exposed_headers,
    )
}

/// The views of a list of header name/value pairs.
pub open spec fn pair_views(v: Seq<(String, String)>) -> Seq<(Seq<char>, Seq<char>)> {
    Seq::new(v.len(), |i: int| (v[i].0@, v[i].1@))
}

fn owned_strings(items: Vec<&str>) -> (v: Vec<String>)
    ensures
        views(v@) == Seq::new(items@.len(), |i: int| items@[i]@),
{
    let mut v: Vec<String> = Vec::new();
    let n = items.len();
    let mut i: usize = 0;
    while i < n
        invariant
            n == items@.len(),
            i <= n,
            v@.len() == i,
            forall|j: int| 0 <= j < i ==> v@[j]@ == items@[j]@,
        decreases n - i,
    {
        v.push(items[i].to_owned());
        i = i + 1;
    }
    assert(views(v@) =~= Seq::new(items@.len(), |i: int| items@[i]@));
    v
}

/// Joins the values with commas; there must be at least one value.
fn concat_vec_to_string(vec: &Vec<String>) -> (r: Result<String, Error>)
    ensures
        vec@.len() > 0 ==> (r matches Ok(s) && s@ == join(views(vec@), ","@)),
        vec@.len() == 0 ==> (r matches Err(Error::RustError(m)) && m@
            == "Tried to concat header values without values."@),
{
    if vec.len() > 0 {
        Ok(join_strings(vec, ","))
    } else {
        Err(Error::RustError("Tried to concat header values without values.".to_owned()))
    }
}

impl Default for Cors {
    /// Creates a default cors configuration, which will do nothing.
    fn default() -> (c: Self)
        ensures
            !c@.credentials,
            c@.max_age is None,
            c@.origins.len() == 0,
            c@.methods.len() == 0,
            c@.allowed_headers.len() == 0,
            c@.exposed_headers.len() == 0,
            cors_headers(c@).len() == 0,
    {
        let c = Cors {
            credentials: false,
            max_age: None,
            origins: Vec::new(),
            methods: Vec::new(),
            allowed_headers: Vec::new(),
            exposed_headers: Vec::new(),
        };
        assert(c@.origins.len() == 0);
        assert(cors_headers(c@) =~= Seq::empty());
        c
    }
}

impl Cors {
    /// `new` constructor for convenience; does the same as `Self::default()`.
    pub fn new() -> (c: Self)
        ensures
            !c@.credentials,
            c@.max_age is None,
            c@.origins.len() == 0,
            c@.methods.len() == 0,
            c@.allowed_headers.len() == 0,
            c@.exposed_headers.len() == 0,
            cors_headers(c@).len() == 0,
    {
        Self::default()
    }

    /// Configures whether cors is allowed to share credentials or not.
    pub fn with_credentials(self, credentials: bool) -> (c: Self)
        ensures
            c@ == (CorsView { credentials, ..self@ }),
    {
        let mut c = self;
        c.credentials = credentials;
        c
    }

    /// Configures how long cors is allowed to cache a preflight-response.
    pub fn with_max_age(self, max_age: u32) -> (c: Self)
        ensures
            c@ == (CorsView { max_age: Some(max_age), ..self@ }),
    {
        let mut c = self;
        c.max_age = Some(max_age);
        c
    }

    /// Configures which origins are allowed for cors.
    pub fn with_origins(self, origins: Vec<&str>) -> (c: Self)
        ensures
            c@ == (CorsView { origins: Seq::new(origins@.len(), |i: int| origins@[i]@), ..self@ }),
    {
        let mut c = self;
        c.origins = owned_strings(origins);
        c
    }

    /// Configures which methods are allowed for cors.
    pub fn with_methods(self, methods: Vec<Method>) -> (c: Self)
        ensures
            c@ == (CorsView { methods: methods@, ..self@ }),
    {
        let mut c = self;
        c.methods = methods;
        c
    }

    /// Configures which headers are allowed for cors.
    pub fn with_allowed_headers(self, headers: Vec<&str>) -> (c: Self)
        ensures
            c@ == (CorsView {
                allowed_headers: Seq::new(headers@.len(), |i: int| headers@[i]@),
                ..self@
            }),
    {
        let mut c = self;
        c.allowed_headers = owned_strings(headers);
        c
    }

    /// Configures which headers the client is allowed to access.
    pub fn with_exposed_headers(self, headers: Vec<&str>) -> (c: Self)
        ensures
            c@ == (CorsView {
                exposed_headers: Seq::new(headers@.len(), |i: int| headers@[i]@),
                ..self@
            }),
    {
        let mut c = self;
        c.exposed_headers = owned_strings(headers);
        c
    }

    /// The response headers the configuration sets, as name/value pairs in the
    /// order they are set; applying the configuration sets each of them.
    pub fn headers(&self) -> (v: Vec<(String, String)>)
        ensures
            pair_views(v@) == cors_headers(self@),
            self@.credentials ==> sets(
                pair_views(v@),
                "Access-Control-Allow-Credentials"@,
                "true"@,
            ),
            self@.max_age matches Some(a) ==> sets(
                pair_views(v@),
                "Access-Control-Max-Age"@,
                decimal(a as nat),
            ),
            self@.origins.len() > 0 ==> sets(
                pair_views(v@),
                "Access-Control-Allow-Origin"@,
                join(self@.origins, ","@),
            ),
            self@.methods.len() > 0 ==> sets(
                pair_views(v@),
                "Access-Control-Allow-Methods"@,
                join(method_names(self@.methods), ","@),
            ),
            self@.allowed_headers.len() > 0 ==> sets(
                pair_views(v@),
                "Access-Control-Allow-Headers"@,
                join(self@.allowed_headers, ","@),
            ),
            self@.exposed_headers.len() > 0 ==> sets(
                pair_views(v@),
                "Access-Control-Expose-headers"@,
                join(self@.exposed_headers, ","@),
            ),
    {
        let mut v: Vec<(String, String)> = Vec::new();
        let ghost c = self@;
        if self.credentials {
            v.push(("Access-Control-Allow-Credentials".to_owned(), "true".to_owned()));
        }
        assert(pair_views(v@) =~= (if c.credentials {
            seq![("Access-Control-Allow-Credentials"@, "true"@)]
        } else {
            Seq::empty()
        }));
        let ghost before_age = pair_views(v@);
        if let Some(age) = self.max_age {
            v.push(("Access-Control-Max-Age".to_owned(), decimal_string(age as u64)));
        }
        assert(pair_views(v@) =~= before_age + (match c.max_age {
            Some(age) => seq![("Access-Control-Max-Age"@, decimal(age as nat))],
            None => Seq::empty(),
        }));
        let ghost before_origin = pair_views(v@);
        if self.origins.len() > 0 {
            if let Ok(s) = concat_vec_to_string(&self.origins) {
                v.push(("Access-Control-Allow-Origin".to_owned(), s));
            }
        }
        assert(pair_views(v@) =~= before_origin + list_header(
            "Access-Control-Allow-Origin"@,
            c.origins,
        ));
        let ghost before_methods = pair_views(v@);
        if self.methods.len() > 0 {
            let names = method_strings(&self.methods);
            if let Ok(s) = concat_vec_to_string(&names) {
                v.push(("Access-Control-Allow-Methods".to_owned(), s));
            }
        }
        assert(pair_views(v@) =~= before_methods + list_header(
            "Access-Control-Allow-Methods"@,
            method_names(c.methods),
        ));
        let ghost before_allowed = pair_views(v@);
        if self.allowed_headers.len() > 0 {
            if let Ok(s) = concat_vec_to_string(&self.allowed_headers) {
                v.push(("Access-Control-Allow-Headers".to_owned(), s));
            }
        }
        assert(pair_views(v@) =~= before_allowed + list_header(
            "Access-Control-Allow-Headers"@,
            c.allowed_headers,
        ));
        let ghost before_exposed = pair_views(v@);
        if self.exposed_headers.len() > 0 {
            if let Ok(s) = concat_vec_to_string(&self.exposed_headers) {
                v.push(("Access-Control-Expose-headers".to_owned(), s));
            }
        }
        assert(pair_views(v@) =~= before_exposed + list_header(
            "Access-Control-Expose-headers"@,
            c.exposed_headers,
        ));
        proof {
            lemma_cors_headers_sets(c);
        }
        v
    }
}

/// Whether the header list `h` sets header `name` to `value`.
pub open spec fn sets(h: Seq<(Seq<char>, Seq<char>)>, name: Seq<char>, value: Seq<char>) -> bool {
    exists|i: int| 0 <= i < h.len() && #[trigger] h[i] == (name, value)
}

/// Every header a configuration calls for is among the headers it sets, with
/// its whole value: credentials as `true`, the maximum age in decimal, and each
/// non-empty list with all its values joined by commas, in order.
pub proof fn lemma_cors_headers_sets(c: CorsView)
    ensures
        c.credentials ==> sets(cors_headers(c), "Access-Control-Allow-Credentials"@, "true"@),
        c.max_age matches Some(a) ==> sets(
            cors_headers(c),
            "Access-Control-Max-Age"@,
            decimal(a as nat),
        ),
        c.origins.len() > 0 ==> sets(
            cors_headers(c),
            "Access-Control-Allow-Origin"@,
            join(c.origins, ","@),
        ),
        c.methods.len() > 0 ==> sets(
            cors_headers(c),
            "Access-Control-Allow-Methods"@,
            join(method_names(c.methods), ","@),
        ),
        c.allowed_headers.len() > 0 ==> sets(
            cors_headers(c),
            "Access-Control-Allow-Headers"@,
            join(c.allowed_headers, ","@),
        ),
        c.exposed_headers.len() > 0 ==> sets(
            cors_headers(c),
            "Access-Control-Expose-headers"@,
            join(c.exposed_headers, ","@),
        ),
{
    let p0 = if c.credentials {
        seq![("Access-Control-Allow-Credentials"@, "true"@)]
    } else {
        Seq::empty()
    };
    let p1 = match c.max_age {
        Some(age) => seq![("Access-Control-Max-Age"@, decimal(age as nat))],
        None => Seq::empty(),
    };
    let p2 = list_header("Access-Control-Allow-Origin"@, c.origins);
    let p3 = list_header("Access-Control-Allow-Methods"@, method_names(c.methods));
    let p4 = list_header("Access-Control-Allow-Headers"@, c.allowed_headers);
    let p5 = list_header("Access-Control-Expose-headers"@, c.exposed_headers);
    let h = cors_headers(c);
    assert(h =~= p0 + p1 + p2 + p3 + p4 + p5);
    let l0 = p0.len() as int;
    let l1 = l0 + p1.len();
    let l2 = l1 + p2.len();
    let l3 = l2 + p3.len();
    let l4 = l3 + p4.len();
    if c.credentials {
        assert(h[0] == p0[0]);
    }
    if c.max_age is Some {
        assert(h[l0] == p1[0]);
    }
    if c.origins.len() > 0 {
        assert(h[l1] == p2[0]);
    }
    if c.methods.len() > 0 {
        assert(h[l2] == p3[0]);
    }
    if c.allowed_headers.len() > 0 {
        assert(h[l3] == p4[0]);
    }
    if c.exposed_headers.len() > 0 {
        assert(h[l4] == p5[0]);
    }
}

/// Values joined with commas split back into exactly those values, in order,
/// when none of them holds a comma.
pub proof fn lemma_join_splits_back(items: Seq<Seq<char>>)
    requires
        items.len() > 0,
        forall|i: int| 0 <= i < items.len() ==> lacks(#[trigger] items[i], ','),
    ensures
        split(join(items, ","@), ',') == items,
    decreases items.len(),
{
    reveal_strlit(",");
    if items.len() == 1 {
        crate::cf::lemma_split_last(items[0], ',');
        assert(seq![items[0]] =~= items);
    } else {
        let front = items.drop_last();
        assert forall|i: int| 0 <= i < front.len() implies lacks(#[trigger] front[i], ',') by {
            assert(front[i] == items[i]);
        }
        lemma_join_splits_back(front);
        assert(","@ =~= seq![',']);
        crate::cf::lemma_split_snoc(join(front, ","@), items.last(), ',');
        assert(front.push(items.last()) =~= items);
    }
}

/// Every value a list header is configured with reaches the response, whole and
/// in order: for each non-empty list of origins, allowed headers or exposed
/// headers whose values hold no comma, the headers set carry that list's header
/// once, with a value that splits at its commas into exactly the configured
/// values.
pub proof fn lemma_listed_values_sent_whole(c: CorsView)
    ensures
        c.origins.len() > 0 && (forall|i: int| 0 <= i < c.origins.len() ==> lacks(#[trigger] c.origins[i], ','))
            ==> exists|v: Seq<char>| sets(cors_headers(c), "Access-Control-Allow-Origin"@, v) && split(v, ',') == c.origins,
        c.allowed_headers.len() > 0 && (forall|i: int| 0 <= i < c.allowed_headers.len() ==> lacks(
            #[trigger] c.allowed_headers[i],
            ',',
        )) ==> exists|v: Seq<char>| sets(cors_headers(c), "Access-Control-Allow-Headers"@, v) && split(v, ',') == c.allowed_headers,
        c.exposed_headers.len() > 0 && (forall|i: int| 0 <= i < c.exposed_headers.len() ==> lacks(
            #[trigger] c.exposed_headers[i],
            ',',
        )) ==> exists|v: Seq<char>| sets(cors_headers(c), "Access-Control-Expose-headers"@, v) && split(v, ',') == c.exposed_headers,
{
    lemma_cors_headers_sets(c);
    if c.origins.len() > 0 && (forall|i: int| 0 <= i < c.origins.len() ==> lacks(#[trigger] c.origins[i], ',')) {
        lemma_join_splits_back(c.origins);
        let v = join(c.origins, ","@);
        assert(sets(cors_headers(c), "Access-Control-Allow-Origin"@, v));
    }
    if c.allowed_headers.len() > 0 && (forall|i: int| 0 <= i < c.allowed_headers.len() ==> lacks(
        #[trigger] c.allowed_headers[i],
        ',',
    )) {
        lemma_join_splits_back(c.allowed_headers);
        let v = join(c.allowed_headers, ","@);
        assert(sets(cors_headers(c), "Access-Control-Allow-Headers"@, v));
    }
    if c.exposed_headers.len() > 0 && (forall|i: int| 0 <= i < c.exposed_headers.len() ==> lacks(
        #[trigger] c.exposed_headers[i],
        ',',
    )) {
        lemma_join_splits_back(c.exposed_headers);
        let v = join(c.exposed_headers, ","@);
        assert(sets(cors_headers(c), "Access-Control-Expose-headers"@, v));
    }
}

/// The header names a configuration can set, in the order it sets them.
pub open spec fn cors_header_names() -> Seq<Seq<char>> {
    seq![
        "Access-Control-Allow-Credentials"@,
        "Access-Control-Max-Age"@,
        "Access-Control-Allow-Origin"@,
        "Access-Control-Allow-Methods"@,
        "Access-Control-Allow-Headers"@,
        "Access-Control-Expose-headers"@,
    ]
}

/// Applying a configuration sets each header at most once, so applying it again
/// changes nothing: the headers it sets have pairwise distinct names.
pub proof fn lemma_headers_distinct(c: CorsView)
    ensures
        forall|i: int, j: int|
            0 <= i < j < cors_headers(c).len() ==> cors_headers(c)[i].0 != cors_headers(c)[j].0,
{
    let names = cors_header_names();
    reveal_strlit("Access-Control-Allow-Credentials");
    reveal_strlit("Access-Control-Max-Age");
    reveal_strlit("Access-Control-Allow-Origin");
    reveal_strlit("Access-Control-Allow-Methods");
    reveal_strlit("Access-Control-Allow-Headers");
    reveal_strlit("Access-Control-Expose-headers");
    // The names differ in length or at a telling position.
    assert(names[0].len() == 32 && names[1].len() == 22 && names[2].len() == 27);
    assert(names[3].len() == 28 && names[4].len() == 28 && names[5].len() == 29);
    assert(names[3][21] != names[4][21]);
    assert forall|a: int, b: int| 0 <= a < b < 6 implies names[a] != names[b] by {
        if a == 3 && b == 4 {
            assert(names[3][21] != names[4][21]);
        }
    }
    let parts = seq![
        if c.credentials { seq![(names[0], "true"@)] } else { Seq::empty() },
        match c.max_age {
            Some(age) => seq![(names[1], crate::text::decimal(age as nat))],
            None => Seq::empty(),
        },
        list_header(names[2], c.origins),
        list_header(names[3], method_names(c.methods)),
        list_header(names[4], c.allowed_headers),
        list_header(names[5], c.exposed_headers),
    ];
    let h = cors_headers(c);
    // Each header comes from one part; its name is that part's name.
    let rank = |k: int| -> int
        {
            let l0 = parts[0].len() as int;
            let l1 = l0 + parts[1].len();
            let l2 = l1 + parts[2].len();
            let l3 = l2 + parts[3].len();
            let l4 = l3 + parts[4].len();
            if k < l0 {
                0
            } else if k < l1 {
                1
            } else if k < l2 {
                2
            } else if k < l3 {
                3
            } else if k < l4 {
                4
            } else {
                5
            }
        };
    assert(h =~= parts[0] + parts[1] + parts[2] + parts[3] + parts[4] + parts[5]);
    assert forall|k: int| 0 <= k < h.len() implies #[trigger] h[k].0 == names[rank(k)] by {}
    assert forall|i: int, j: int| 0 <= i < j < h.len() implies #[trigger] h[i].0 != #[trigger] h[j].0 by {
        assert(h[i].0 == names[rank(i)]);
        assert(h[j].0 == names[rank(j)]);
        assert(rank(i) < rank(j));
        assert(0 <= rank(i) < 6 && 0 <= rank(j) < 6);
    }
}

fn method_strings(methods: &Vec<Method>) -> (v: Vec<String>)
    ensures
        views(v@) == method_names(methods@),
{
    let mut v: Vec<String> = Vec::new();
    let n = methods.len();
    let mut i: usize = 0;
    while i < n
        invariant
            n == methods@.len(),
            i <= n,
            v@.len() == i,
            forall|j: int| 0 <= j < i ==> v@[j]@ == methods@[j].name(),
        decreases n - i,
    {
        v.push(methods[i].to_string());
        i = i + 1;
    }
    assert(views(v@) =~= method_names(methods@));
    v
}

} // verus!
