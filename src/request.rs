//! Outbound requests: an endpoint name, its named parameters, and how its answer is read.
use vstd::prelude::*;
use vstd::string::*;

use crate::url::{decimal, decimal_string, digit_char};

verus! {

/// The value of one request parameter.
pub enum ParamValue {
    /// A non-negative integer, written in decimal.
    Unsigned(u64),
    /// A JSON boolean.
    Flag(bool),
    /// A string, written as a JSON string literal.
    Text(String),
    /// A value that is already JSON text (a hash, a coin list, a spend bundle), written as it is.
    Encoded(String),
}

/// What a parameter value stands for.
pub enum ArgView {
    Unsigned(nat),
    Flag(bool),
    Text(Seq<char>),
    Encoded(Seq<char>),
}

impl View for ParamValue {
    type V = ArgView;

    open spec fn view(&self) -> ArgView {
        match self {
            ParamValue::Unsigned(n) => ArgView::Unsigned(*n as nat),
            ParamValue::Flag(b) => ArgView::Flag(*b),
            ParamValue::Text(s) => ArgView::Text(s@),
            ParamValue::Encoded(t) => ArgView::Encoded(t@),
        }
    }
}

/// One named request parameter.
pub struct Param {
    pub name: String,
    pub value: ParamValue,
}

impl View for Param {
    type V = (Seq<char>, ArgView);

    open spec fn view(&self) -> (Seq<char>, ArgView) {
        (self.name@, self.value@)
    }
}

/// A call of one endpoint: its name (the URL path), its parameters in order, the members of
/// the answer that make up the result, and whether `success: false` means "nothing found"
/// rather than a failure.
pub struct RpcRequest {
    pub endpoint: String,
    pub params: Vec<Param>,
    pub fields: Vec<String>,
    pub absent_on_failure: bool,
}

/// What a request stands for.
pub struct RequestView {
    pub endpoint: Seq<char>,
    pub params: Seq<(Seq<char>, ArgView)>,
    pub fields: Seq<Seq<char>>,
    pub absent_on_failure: bool,
}

pub open spec fn params_view(ps: Seq<Param>) -> Seq<(Seq<char>, ArgView)> {
    ps.map_values(|p: Param| p@)
}

pub open spec fn strings_view(ss: Seq<String>) -> Seq<Seq<char>> {
    ss.map_values(|s: String| s@)
}

impl View for RpcRequest {
    type V = RequestView;

    open spec fn view(&self) -> RequestView {
        RequestView {
            endpoint: self.endpoint@,
            params: params_view(self.params@),
            fields: strings_view(self.fields@),
            absent_on_failure: self.absent_on_failure,
        }
    }
}

/// No two of the names are the same.
pub open spec fn distinct_names(names: Seq<Seq<char>>) -> bool {
    forall|i: int, j: int| 0 <= i < j < names.len() ==> names[i] != names[j]
}

/// A hexadecimal digit, in lower case.
pub open spec fn hex_digit(d: nat) -> char {
    if d < 10 {
        digit_char(d)
    } else if d == 10 {
        'a'
    } else if d == 11 {
        'b'
    } else if d == 12 {
        'c'
    } else if d == 13 {
        'd'
    } else if d == 14 {
        'e'
    } else {
        'f'
    }
}

/// How a character stands in a JSON string literal: a quote, a backslash and the control
/// characters are escaped, each control character without a short escape as `\u00XX`.
pub open spec fn escaped_char(c: char) -> Seq<char> {
    if c == '"' {
        seq!['\\', '"']
    } else if c == '\\' {
        seq!['\\', '\\']
    } else if c == '\u{8}' {
        seq!['\\', 'b']
    } else if c == '\t' {
        seq!['\\', 't']
    } else if c == '\n' {
        seq!['\\', 'n']
    } else if c == '\u{c}' {
        seq!['\\', 'f']
    } else if c == '\r' {
        seq!['\\', 'r']
    } else if (c as u32) < 32 {
        seq!['\\', 'u', '0', '0', hex_digit((c as u32) as nat / 16), hex_digit((c as u32) as nat % 16)]
    } else {
        seq![c]
    }
}

/// The characters of `s`, each as it stands in a JSON string literal.
pub open spec fn escaped(s: Seq<char>) -> Seq<char>
    decreases s.len(),
{
    if s.len() == 0 {
        Seq::empty()
    } else {
        escaped(s.drop_last()) + escaped_char(s.last())
    }
}

/// The JSON string literal of `s`: between quotes, each character escaped as needed.
pub open spec fn json_string(s: Seq<char>) -> Seq<char> {
    seq!['"'] + escaped(s) + seq!['"']
}

/// Relies on serde_json::to_string on a `str`: a JSON string literal with the escapes of its
/// `ESCAPE` table (`\"`, `\\`, `\b`, `\t`, `\n`, `\f`, `\r`, other control characters as
/// `\u00XX` in lower-case hex) and every other character as it is. Writing into the in-memory
/// buffer it uses has no failing path.
#[verifier::external_body]
fn quote(s: &str) -> (r: String)
    ensures
        r@ == json_string(s@),
{
    serde_json::to_string(s).unwrap_or_default()
}

/// The JSON text of a parameter value.
pub open spec fn value_text(v: ArgView) -> Seq<char> {
    match v {
        ArgView::Unsigned(n) => decimal(n),
        ArgView::Flag(b) => if b {
            seq!['t', 'r', 'u', 'e']
        } else {
            seq!['f', 'a', 'l', 's', 'e']
        },
        ArgView::Text(s) => json_string(s),
        ArgView::Encoded(t) => t,
    }
}

/// `"name":value`.
pub open spec fn member_text(p: (Seq<char>, ArgView)) -> Seq<char> {
    json_string(p.0) + seq![':'] + value_text(p.1)
}

/// The members, separated by commas.
pub open spec fn members_text(ps: Seq<(Seq<char>, ArgView)>) -> Seq<char>
    decreases ps.len(),
{
    if ps.len() == 0 {
        Seq::empty()
    } else if ps.len() == 1 {
        member_text(ps[0])
    } else {
        members_text(ps.drop_last()) + seq![','] + member_text(ps.last())
    }
}

/// The JSON object of the parameters; `{}` when there are none.
pub open spec fn body_text(ps: Seq<(Seq<char>, ArgView)>) -> Seq<char> {
    seq!['{'] + members_text(ps) + seq!['}']
}

fn value_json(v: &ParamValue) -> (r: String)
    ensures
        r@ == value_text(v@),
{
    match v {
        ParamValue::Unsigned(n) => decimal_string(*n),
        ParamValue::Flag(b) => {
            proof {
                reveal_strlit("true");
                reveal_strlit("false");
            }
            if *b {
                String::from_str("true")
            } else {
                String::from_str("false")
            }
        },
        ParamValue::Text(s) => quote(s.as_str()),
        ParamValue::Encoded(t) => t.clone(),
    }
}

/// The request body: a JSON object with one member per parameter, in order, and `{}` when
/// there are none.
pub fn encode_params(params: &Vec<Param>) -> (r: String)
    ensures
        r@ == body_text(params_view(params@)),
{
    proof {
        reveal_strlit("{");
    }
    let ghost ps = params_view(params@);
    let mut s = String::from_str("{");
    let mut i: usize = 0;
    while i < params.len()
        invariant
            i <= params@.len(),
            ps == params_view(params@),
            s@ == seq!['{'] + members_text(ps.subrange(0, i as int)),
        decreases params@.len() - i,
    {
        let ghost before = s@;
        if i > 0 {
            s.append(",");
        }
        let ghost separated = s@;
        let name = quote(params[i].name.as_str());
        s.append(name.as_str());
        s.append(":");
        let value = value_json(&params[i].value);
        s.append(value.as_str());
        proof {
            let pre = ps.subrange(0, i as int);
            let post = ps.subrange(0, i + 1);
            assert(post.drop_last() =~= pre);
            assert(ps[i as int] == params@[i as int]@);
            assert(post.last() == ps[i as int]);
            assert(name@ == json_string(ps[i as int].0));
            assert(value@ == value_text(ps[i as int].1));
            reveal_strlit(":");
            reveal_strlit(",");
            assert(":"@ =~= seq![':']);
            assert(","@ =~= seq![',']);
            assert(s@ =~= separated + member_text(post.last()));
            if i == 0 {
                assert(post.len() == 1);
                assert(members_text(post) == member_text(post[0]));
                assert(before =~= seq!['{'] + members_text(pre));
            } else {
                assert(members_text(post) == members_text(pre) + seq![','] + member_text(post.last()));
            }
            assert(s@ =~= seq!['{'] + members_text(post));
        }
        i = i + 1;
    }
    s.append("}");
    proof {
        reveal_strlit("}");
        assert(ps.subrange(0, params@.len() as int) =~= ps);
        assert(s@ =~= body_text(ps));
    }
    s
}

impl RpcRequest {
    /// The result fields of the request are distinct names.
    pub open spec fn well_formed(&self) -> bool {
        distinct_names(self@.fields)
    }

    /// Tells whether the result fields of the request are distinct names.
    pub fn has_distinct_fields(&self) -> (r: bool)
        ensures
            r == self.well_formed(),
    {
        let ghost names = self@.fields;
        let n = self.fields.len();
        let mut i: usize = 0;
        while i < n
            invariant
                n == self.fields@.len(),
                names == strings_view(self.fields@),
                i <= n,
                forall|a: int, b: int| 0 <= a < b < names.len() && a < i ==> names[a] != names[b],
            decreases n - i,
        {
            let mut j: usize = i + 1;
            while j < n
                invariant
                    n == self.fields@.len(),
                    names == strings_view(self.fields@),
                    i < j <= n,
                    forall|b: int| i < b < j ==> names[i as int] != names[b],
                decreases n - j,
            {
                if self.fields[i] == self.fields[j] {
                    proof {
                        assert(names[i as int] == names[j as int]);
                    }
                    return false;
                }
                proof {
                    assert(names[i as int] == self.fields@[i as int]@);
                    assert(names[j as int] == self.fields@[j as int]@);
                }
                j = j + 1;
            }
            i = i + 1;
        }
        true
    }
}

/// One parameter.
pub fn param(name: &str, value: ParamValue) -> (r: Param)
    ensures
        r@ == (name@, value@),
{
    Param { name: String::from_str(name), value }
}

/// A request for `endpoint` that reads `success: false` as a failure.
pub fn request(endpoint: &str, params: Vec<Param>, fields: Vec<String>) -> (r: RpcRequest)
    ensures
        r@ == (RequestView {
            endpoint: endpoint@,
            params: params_view(params@),
            fields: strings_view(fields@),
            absent_on_failure: false,
        }),
{
    RpcRequest { endpoint: String::from_str(endpoint), params, fields, absent_on_failure: false }
}

pub(crate) fn no_params() -> (r: Vec<Param>)
    ensures
        params_view(r@) == Seq::<(Seq<char>, ArgView)>::empty(),
{
    let r: Vec<Param> = Vec::new();
    proof {
        assert(params_view(r@) =~= Seq::<(Seq<char>, ArgView)>::empty());
    }
    r
}

pub(crate) fn params1(a: Param) -> (r: Vec<Param>)
    ensures
        params_view(r@) == seq![a@],
{
    let ghost va = a@;
    let mut r: Vec<Param> = Vec::new();
    r.push(a);
    proof {
        assert(params_view(r@) =~= seq![va]);
    }
    r
}

pub(crate) fn params2(a: Param, b: Param) -> (r: Vec<Param>)
    ensures
        params_view(r@) == seq![a@, b@],
{
    let ghost (va, vb) = (a@, b@);
    let mut r: Vec<Param> = Vec::new();
    r.push(a);
    r.push(b);
    proof {
        assert(params_view(r@) =~= seq![va, vb]);
    }
    r
}

pub(crate) fn params3(a: Param, b: Param, c: Param) -> (r: Vec<Param>)
    ensures
        params_view(r@) == seq![a@, b@, c@],
{
    let ghost (va, vb, vc) = (a@, b@, c@);
    let mut r: Vec<Param> = Vec::new();
    r.push(a);
    r.push(b);
    r.push(c);
    proof {
        assert(params_view(r@) =~= seq![va, vb, vc]);
    }
    r
}

pub(crate) fn params4(a: Param, b: Param, c: Param, d: Param) -> (r: Vec<Param>)
    ensures
        params_view(r@) == seq![a@, b@, c@, d@],
{
    let ghost (va, vb, vc, vd) = (a@, b@, c@, d@);
    let mut r: Vec<Param> = Vec::new();
    r.push(a);
    r.push(b);
    r.push(c);
    r.push(d);
    proof {
        assert(params_view(r@) =~= seq![va, vb, vc, vd]);
    }
    r
}

pub(crate) fn fields1(a: &str) -> (r: Vec<String>)
    ensures
        strings_view(r@) == seq![a@],
        distinct_names(strings_view(r@)),
{
    let mut r: Vec<String> = Vec::new();
    r.push(String::from_str(a));
    proof {
        assert(strings_view(r@) =~= seq![a@]);
    }
    r
}

pub(crate) fn fields2(a: &str, b: &str) -> (r: Vec<String>)
    ensures
        strings_view(r@) == seq![a@, b@],
        a@ != b@ ==> distinct_names(strings_view(r@)),
{
    let mut r: Vec<String> = Vec::new();
    r.push(String::from_str(a));
    r.push(String::from_str(b));
    proof {
        assert(strings_view(r@) =~= seq![a@, b@]);
    }
    r
}

pub(crate) fn fields3(a: &str, b: &str, c: &str) -> (r: Vec<String>)
    ensures
        strings_view(r@) == seq![a@, b@, c@],
        a@ != b@ && a@ != c@ && b@ != c@ ==> distinct_names(strings_view(r@)),
{
    let mut r: Vec<String> = Vec::new();
    r.push(String::from_str(a));
    r.push(String::from_str(b));
    r.push(String::from_str(c));
    proof {
        assert(strings_view(r@) =~= seq![a@, b@, c@]);
    }
    r
}

pub(crate) fn fields4(a: &str, b: &str, c: &str, d: &str) -> (r: Vec<String>)
    ensures
        strings_view(r@) == seq![a@, b@, c@, d@],
        a@ != b@ && a@ != c@ && a@ != d@ && b@ != c@ && b@ != d@ && c@ != d@ ==> distinct_names(
            strings_view(r@),
        ),
{
    let mut r: Vec<String> = Vec::new();
    r.push(String::from_str(a));
    r.push(String::from_str(b));
    r.push(String::from_str(c));
    r.push(String::from_str(d));
    proof {
        assert(strings_view(r@) =~= seq![a@, b@, c@, d@]);
    }
    r
}

/// The JSON string literals of `items`, separated by commas.
pub open spec fn strings_text(items: Seq<Seq<char>>) -> Seq<char>
    decreases items.len(),
{
    if items.len() == 0 {
        Seq::empty()
    } else if items.len() == 1 {
        json_string(items[0])
    } else {
        strings_text(items.drop_last()) + seq![','] + json_string(items.last())
    }
}

/// The JSON array of the strings `items`, in order: `[]` when there are none. Lists of hashes
/// are passed to the service this way.
pub fn json_string_array(items: &Vec<String>) -> (r: String)
    ensures
        r@ == seq!['['] + strings_text(strings_view(items@)) + seq![']'],
{
    proof {
        reveal_strlit("[");
    }
    let ghost v = strings_view(items@);
    let mut s = String::from_str("[");
    let mut i: usize = 0;
    while i < items.len()
        invariant
            i <= items@.len(),
            v == strings_view(items@),
            s@ == seq!['['] + strings_text(v.subrange(0, i as int)),
        decreases items@.len() - i,
    {
        let ghost before = s@;
        if i > 0 {
            s.append(",");
        }
        let ghost separated = s@;
        let item = quote(items[i].as_str());
        s.append(item.as_str());
        proof {
            reveal_strlit(",");
            let pre = v.subrange(0, i as int);
            let post = v.subrange(0, i + 1);
            assert(post.drop_last() =~= pre);
            assert(v[i as int] == items@[i as int]@);
            assert(post.last() == v[i as int]);
            assert(s@ =~= separated + json_string(post.last()));
            if i == 0 {
                assert(post.len() == 1);
                assert(strings_text(post) == json_string(post[0]));
                assert(before =~= seq!['['] + strings_text(pre));
            } else {
                assert(","@ =~= seq![',']);
                assert(strings_text(post) == strings_text(pre) + seq![','] + json_string(post.last()));
            }
            assert(s@ =~= seq!['['] + strings_text(post));
        }
        i = i + 1;
    }
    s.append("]");
    proof {
        reveal_strlit("]");
        assert(v.subrange(0, items@.len() as int) =~= v);
    }
    s
}

} // verus!
