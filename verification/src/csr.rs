//! The signing-request document: a JSON-shaped descriptor
//! `{CN, key: {algo, size}, names: [{C, L, O, OU, ST}]}` built from a common
//! name and an organization under a fixed key policy (RSA, 2048 bits) and
//! fixed organizational fields. The document text is rendered and parsed
//! here, with a proof that parsing recovers exactly what was rendered.

use vstd::prelude::*;
use vstd::string::*;

verus! {

/// A signing-request descriptor. The common name and organization vary per
/// identity; the key policy and the organizational fields are fixed and
/// exposed as constant accessors.
#[derive(Debug, Clone)]
pub struct CsrDocument {
    pub common_name: String,
    pub organization: String,
}

/// The document text up to the common name value.
pub open spec fn csr_head() -> Seq<char> {
    "{\n  \"CN\": \""@
}

/// The document text between the common name and the organization: the fixed
/// key policy and the leading fixed subject fields.
pub open spec fn csr_mid() -> Seq<char> {
    "\",\n  \"key\": {\n    \"algo\": \"rsa\",\n    \"size\": 2048\n  },\n  \"names\": [\n    {\n      \"C\": \"US\",\n      \"L\": \"Portland\",\n      \"O\": \""@
}

/// The document text after the organization: the trailing fixed subject
/// fields.
pub open spec fn csr_tail() -> Seq<char> {
    "\",\n      \"OU\": \"Kubernetes\",\n      \"ST\": \"Oregon\"\n    }\n  ]\n}"@
}

/// The full signing-request document text for a common name and an
/// organization.
pub open spec fn csr_json(cn: Seq<char>, o: Seq<char>) -> Seq<char> {
    csr_head() + cn + csr_mid() + o + csr_tail()
}

/// Whether a string is free of double quotes, so that splicing it into the
/// document keeps the document parseable.
pub open spec fn quote_free(s: Seq<char>) -> bool {
    forall|i: int| 0 <= i < s.len() ==> s[i] != '"'
}

fn csr_head_str() -> (r: &'static str)
    ensures
        r@ == csr_head(),
{
    "{\n  \"CN\": \""
}

fn csr_mid_str() -> (r: &'static str)
    ensures
        r@ == csr_mid(),
{
    "\",\n  \"key\": {\n    \"algo\": \"rsa\",\n    \"size\": 2048\n  },\n  \"names\": [\n    {\n      \"C\": \"US\",\n      \"L\": \"Portland\",\n      \"O\": \""
}

fn csr_tail_str() -> (r: &'static str)
    ensures
        r@ == csr_tail(),
{
    "\",\n      \"OU\": \"Kubernetes\",\n      \"ST\": \"Oregon\"\n    }\n  ]\n}"
}

impl CsrDocument {
    /// Builds the descriptor for one identity. No validation is performed on
    /// the identity strings beyond non-emptiness; callers supply correct
    /// identities.
    pub fn new(common_name: &str, organization: &str) -> (r: CsrDocument)
        requires
            common_name@.len() > 0,
            organization@.len() > 0,
        ensures
            r.common_name@ == common_name@,
            r.organization@ == organization@,
    {
        CsrDocument { common_name: common_name.to_owned(), organization: organization.to_owned() }
    }

    /// The fixed key algorithm of every request.
    pub fn key_algorithm(&self) -> (r: &'static str)
        ensures
            r@ == "rsa"@,
    {
        "rsa"
    }

    /// The fixed key size of every request, in bits.
    pub fn key_size(&self) -> (r: u64)
        ensures
            r == 2048,
    {
        2048
    }

    /// The fixed country subject field.
    pub fn country(&self) -> (r: &'static str)
        ensures
            r@ == "US"@,
    {
        "US"
    }

    /// The fixed locality subject field.
    pub fn locality(&self) -> (r: &'static str)
        ensures
            r@ == "Portland"@,
    {
        "Portland"
    }

    /// The fixed organizational-unit subject field.
    pub fn organizational_unit(&self) -> (r: &'static str)
        ensures
            r@ == "Kubernetes"@,
    {
        "Kubernetes"
    }

    /// The fixed state subject field.
    pub fn state(&self) -> (r: &'static str)
        ensures
            r@ == "Oregon"@,
    {
        "Oregon"
    }

    /// Renders the document text that the signing engine consumes.
    pub fn to_json(&self) -> (r: String)
        ensures
            r@ == csr_json(self.common_name@, self.organization@),
    {
        let mut out = csr_head_str().to_owned();
        out.append(self.common_name.as_str());
        out.append(csr_mid_str());
        out.append(self.organization.as_str());
        out.append(csr_tail_str());
        out
    }
}

/// Whether `lit` occurs in `s` exactly at position `i`.
pub open spec fn spec_lit_at(s: Seq<char>, i: int, lit: Seq<char>) -> bool {
    &&& 0 <= i
    &&& i + lit.len() <= s.len()
    &&& s.subrange(i, i + lit.len()) == lit
}

/// The position of the first double quote in `s` at or after `i`, if any.
pub open spec fn spec_find_quote(s: Seq<char>, i: int) -> Option<int>
    decreases s.len() - i,
{
    if i < 0 || i >= s.len() {
        None
    } else if s[i] == '"' {
        Some(i)
    } else {
        spec_find_quote(s, i + 1)
    }
}

/// The common name and organization recovered from a document text, if the
/// text has exactly the shape this module renders, with non-empty identity
/// fields.
pub open spec fn spec_parse_fields(s: Seq<char>) -> Option<(Seq<char>, Seq<char>)> {
    if !spec_lit_at(s, 0, csr_head()) {
        None
    } else {
        let i1 = csr_head().len() as int;
        match spec_find_quote(s, i1) {
            None => None,
            Some(j1) => {
                let cn = s.subrange(i1, j1);
                if cn.len() == 0 || !spec_lit_at(s, j1, csr_mid()) {
                    None
                } else {
                    let i2 = j1 + csr_mid().len();
                    match spec_find_quote(s, i2) {
                        None => None,
                        Some(j2) => {
                            let o = s.subrange(i2, j2);
                            if o.len() == 0 || !spec_lit_at(s, j2, csr_tail()) || j2
                                + csr_tail().len() != s.len() {
                                None
                            } else {
                                Some((cn, o))
                            }
                        },
                    }
                }
            },
        }
    }
}

/// Whether `lit` occurs in `s` exactly at position `i`.
fn lit_at(s: &str, i: usize, lit: &str) -> (b: bool)
    requires
        i as int <= s@.len(),
    ensures
        b == spec_lit_at(s@, i as int, lit@),
{
    let n = s.unicode_len();
    let m = lit.unicode_len();
    if m > n - i {
        return false;
    }
    let mut j: usize = 0;
    while j < m
        invariant
            j <= m,
            i + m <= n,
            n == s@.len(),
            m == lit@.len(),
            forall|k: int| 0 <= k < j ==> s@[i + k] == lit@[k],
        decreases m - j,
    {
        if s.get_char(i + j) != lit.get_char(j) {
            proof {
                assert(s@.subrange(i as int, i + m as int)[j as int] == s@[i + j]);
            }
            return false;
        }
        j += 1;
    }
    proof {
        assert(s@.subrange(i as int, i + m as int) =~= lit@);
    }
    true
}

/// The position of the first double quote in `s` at or after `i`, if any.
fn find_quote(s: &str, i: usize) -> (r: Option<usize>)
    requires
        i as int <= s@.len(),
    ensures
        match r {
            Some(j) => spec_find_quote(s@, i as int) == Some(j as int) && i <= j < s@.len(),
            None => spec_find_quote(s@, i as int) is None,
        },
    decreases s@.len() - i,
{
    let n = s.unicode_len();
    if i >= n {
        None
    } else if s.get_char(i) == '"' {
        Some(i)
    } else {
        find_quote(s, i + 1)
    }
}

/// Parses a document text back into its descriptor. Succeeds exactly when
/// the text has the rendered shape, and then recovers the common name and
/// the organization exactly; the key policy and the fixed subject fields are
/// checked literally.
pub fn parse(s: &str) -> (r: Option<CsrDocument>)
    ensures
        match spec_parse_fields(s@) {
            Some(f) => r matches Some(d) && d.common_name@ == f.0 && d.organization@ == f.1,
            None => r is None,
        },
{
    let n = s.unicode_len();
    let head = csr_head_str();
    let mid = csr_mid_str();
    let tail = csr_tail_str();
    if !lit_at(s, 0, head) {
        return None;
    }
    let i1 = head.unicode_len();
    let j1 = match find_quote(s, i1) {
        None => {
            return None;
        },
        Some(j) => j,
    };
    if j1 == i1 {
        return None;
    }
    let common_name = s.substring_char(i1, j1).to_owned();
    if !lit_at(s, j1, mid) {
        return None;
    }
    let i2 = j1 + mid.unicode_len();
    let j2 = match find_quote(s, i2) {
        None => {
            return None;
        },
        Some(j) => j,
    };
    if j2 == i2 {
        return None;
    }
    let organization = s.substring_char(i2, j2).to_owned();
    if !lit_at(s, j2, tail) {
        return None;
    }
    if j2 + tail.unicode_len() != n {
        return None;
    }
    Some(CsrDocument { common_name, organization })
}

/// A quote at `j`, with none before it from `i` on, is the first quote.
proof fn lemma_find_quote_hits(s: Seq<char>, i: int, j: int)
    requires
        0 <= i <= j < s.len(),
        forall|k: int| i <= k < j ==> s[k] != '"',
        s[j] == '"',
    ensures
        spec_find_quote(s, i) == Some(j),
    decreases j - i,
{
    if i < j {
        lemma_find_quote_hits(s, i + 1, j);
    }
}

/// Round trip: a rendered document parses back to exactly the common name
/// and organization it was rendered from, for identity strings that are
/// non-empty and carry no double quote.
pub proof fn lemma_round_trip(cn: Seq<char>, o: Seq<char>)
    requires
        cn.len() > 0,
        o.len() > 0,
        quote_free(cn),
        quote_free(o),
    ensures
        spec_parse_fields(csr_json(cn, o)) == Some((cn, o)),
{
    reveal_strlit("{\n  \"CN\": \"");
    reveal_strlit(
        "\",\n  \"key\": {\n    \"algo\": \"rsa\",\n    \"size\": 2048\n  },\n  \"names\": [\n    {\n      \"C\": \"US\",\n      \"L\": \"Portland\",\n      \"O\": \"",
    );
    reveal_strlit("\",\n      \"OU\": \"Kubernetes\",\n      \"ST\": \"Oregon\"\n    }\n  ]\n}");
    let h = csr_head();
    let m = csr_mid();
    let t = csr_tail();
    let s = csr_json(cn, o);
    let i1 = h.len() as int;
    let j1 = i1 + cn.len();
    let i2 = j1 + m.len();
    let j2 = i2 + o.len();
    assert(s.len() == j2 + t.len());
    assert(s.subrange(0, i1) =~= h);
    assert(m[0] == '"');
    assert(t[0] == '"');
    assert(forall|k: int| i1 <= k < j1 ==> s[k] == cn[k - i1]);
    assert(s[j1] == m[0]);
    lemma_find_quote_hits(s, i1, j1);
    assert(s.subrange(i1, j1) =~= cn);
    assert(s.subrange(j1, j1 + m.len()) =~= m);
    assert(forall|k: int| i2 <= k < j2 ==> s[k] == o[k - i2]);
    assert(s[j2] == t[0]);
    lemma_find_quote_hits(s, i2, j2);
    assert(s.subrange(i2, j2) =~= o);
    assert(s.subrange(j2, j2 + t.len()) =~= t);
}

} // verus!
