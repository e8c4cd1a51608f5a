//! The HTTP requests the core decides on, as plain values that the caller
//! sends.

use vstd::prelude::*;
use crate::value::Value;

verus! {

/// An HTTP method.
#[derive(PartialEq, Eq, Structural)]
pub enum Method {
    Get,
    Post,
    Put,
    Patch,
}

/// One request: method, path on the provider's API host, query parameters
/// in order, and a JSON body when there is one (sent with
/// `Content-Type: application/json`).
pub struct Request {
    pub method: Method,
    pub path: String,
    pub query: Vec<(String, String)>,
    pub body: Option<Value>,
}

/// The views of string pairs.
pub open spec fn pairs_view(ps: Seq<(String, String)>) -> Seq<(Seq<char>, Seq<char>)> {
    ps.map_values(|p: (String, String)| (p.0@, p.1@))
}

/// The members of an object whose members are all strings.
pub open spec fn string_members(v: Value) -> Option<Seq<(Seq<char>, Seq<char>)>> {
    match v {
        Value::Object(fs) => if forall|i: int| 0 <= i < fs@.len() ==> (#[trigger] fs@[i]).1 is Str {
            Some(fs@.map_values(|m: (String, Value)| (m.0@, m.1->Str_0@)))
        } else {
            None
        },
        _ => None,
    }
}

/// What a request holds.
pub struct RequestView {
    pub method: Method,
    pub path: Seq<char>,
    pub query: Seq<(Seq<char>, Seq<char>)>,
    pub body: Option<Option<Seq<(Seq<char>, Seq<char>)>>>,
}

impl View for Request {
    type V = RequestView;

    open spec fn view(&self) -> RequestView {
        RequestView {
            method: self.method,
            path: self.path@,
            query: pairs_view(self.query@),
            body: match self.body {
                Some(b) => Some(string_members(b)),
                None => None,
            },
        }
    }
}

/// An object whose members are the given strings, in order.
pub fn string_object(pairs: Vec<(String, String)>) -> (r: Value)
    ensures
        string_members(r) == Some(pairs_view(pairs@)),
{
    let mut fs: Vec<(String, Value)> = Vec::new();
    let mut i: usize = 0;
    while i < pairs.len()
        invariant
            i <= pairs@.len(),
            fs@.len() == i,
            forall|k: int| 0 <= k < i ==> (#[trigger] fs@[k]).1 is Str,
            forall|k: int| 0 <= k < i ==> (#[trigger] fs@[k]).0@ == pairs@[k].0@ && fs@[k].1->Str_0@
                == pairs@[k].1@,
        decreases pairs.len() - i,
    {
        fs.push((pairs[i].0.clone(), Value::Str(pairs[i].1.clone())));
        i = i + 1;
    }
    assert(fs@.map_values(|m: (String, Value)| (m.0@, m.1->Str_0@)) =~= pairs_view(pairs@));
    Value::Object(fs)
}

/// The decimal digit character for `d < 10`.
pub open spec fn digit_char(d: nat) -> char {
    if d == 0 {
        '0'
    } else if d == 1 {
        '1'
    } else if d == 2 {
        '2'
    } else if d == 3 {
        '3'
    } else if d == 4 {
        '4'
    } else if d == 5 {
        '5'
    } else if d == 6 {
        '6'
    } else if d == 7 {
        '7'
    } else if d == 8 {
        '8'
    } else {
        '9'
    }
}

/// `n` written in decimal, without leading zeros.
pub open spec fn decimal_text(n: nat) -> Seq<char>
    decreases n,
{
    if n < 10 {
        seq![digit_char(n)]
    } else {
        decimal_text(n / 10).push(digit_char(n % 10))
    }
}

fn digit_str(d: u64) -> (r: &'static str)
    requires
        d < 10,
    ensures
        r@ == seq![digit_char(d as nat)],
{
    proof {
        reveal_strlit("0");
        reveal_strlit("1");
        reveal_strlit("2");
        reveal_strlit("3");
        reveal_strlit("4");
        reveal_strlit("5");
        reveal_strlit("6");
        reveal_strlit("7");
        reveal_strlit("8");
        reveal_strlit("9");
    }
    if d == 0 {
        "0"
    } else if d == 1 {
        "1"
    } else if d == 2 {
        "2"
    } else if d == 3 {
        "3"
    } else if d == 4 {
        "4"
    } else if d == 5 {
        "5"
    } else if d == 6 {
        "6"
    } else if d == 7 {
        "7"
    } else if d == 8 {
        "8"
    } else {
        "9"
    }
}

/// `n` in decimal.
pub fn decimal(n: u64) -> (r: String)
    ensures
        r@ == decimal_text(n as nat),
    decreases n,
{
    if n < 10 {
        String::from_str(digit_str(n))
    } else {
        let mut s = decimal(n / 10);
        s.append(digit_str(n % 10));
        s
    }
}

/// One `key:value` term of a search query.
pub open spec fn term(p: (Seq<char>, Seq<char>)) -> Seq<char> {
    p.0 + ":"@ + p.1
}

/// Search terms joined by single spaces.
pub open spec fn query_text(ps: Seq<(Seq<char>, Seq<char>)>) -> Seq<char>
    decreases ps.len(),
{
    if ps.len() == 0 {
        Seq::empty()
    } else if ps.len() == 1 {
        term(ps[0])
    } else {
        query_text(ps.drop_last()) + " "@ + term(ps.last())
    }
}

/// Writes `key:value` pairs as a search query, separated by spaces.
pub fn build_query(pairs: &Vec<(String, String)>) -> (r: String)
    ensures
        r@ == query_text(pairs_view(pairs@)),
{
    let mut out = String::new();
    let mut i: usize = 0;
    while i < pairs.len()
        invariant
            i <= pairs@.len(),
            out@ == query_text(pairs_view(pairs@.subrange(0, i as int))),
        decreases pairs.len() - i,
    {
        let ghost next = pairs_view(pairs@.subrange(0, i + 1));
        assert(next.drop_last() == pairs_view(pairs@.subrange(0, i as int)));
        assert(next.last() == (pairs@[i as int].0@, pairs@[i as int].1@));
        if i > 0 {
            out.append(" ");
        }
        out.append(pairs[i].0.as_str());
        out.append(":");
        out.append(pairs[i].1.as_str());
        i = i + 1;
    }
    assert(pairs@.subrange(0, pairs@.len() as int) == pairs@);
    out
}

/// A `(key, value)` pair of strings.
pub fn pair(key: &str, value: &str) -> (r: (String, String))
    ensures
        r.0@ == key@,
        r.1@ == value@,
{
    (String::from_str(key), String::from_str(value))
}

/// A path made of `prefix`, `middle` and `suffix`.
pub fn path3(prefix: &str, middle: &str, suffix: &str) -> (r: String)
    ensures
        r@ == prefix@ + middle@ + suffix@,
{
    let mut s = String::from_str(prefix);
    s.append(middle);
    s.append(suffix);
    s
}

} // verus!
