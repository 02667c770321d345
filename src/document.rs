//! The document a configuration is read from, and the failures of reading it.
use vstd::prelude::*;

use crate::error::ErrorKind;

verus! {

/// A configuration document: scalars, lists and tables of named entries.
#[derive(Debug)]
pub enum Value {
    Integer(i64),
    Text(String),
    List(Vec<Value>),
    Table(Vec<(String, Value)>),
}

/// Why a value was refused, with the offending token (empty where there is none).
#[derive(Clone, Debug, PartialEq, Eq)]
pub struct Failure {
    pub kind: ErrorKind,
    pub token: String,
}

pub struct FailureModel {
    pub kind: ErrorKind,
    pub token: Seq<char>,
}

impl View for Failure {
    type V = FailureModel;

    open spec fn view(&self) -> FailureModel {
        FailureModel { kind: self.kind, token: self.token@ }
    }
}

pub open spec fn fail(kind: ErrorKind, token: Seq<char>) -> FailureModel {
    FailureModel { kind, token }
}

/// An executable result matches a modelled one, values compared by view.
pub open spec fn agrees<T: View>(r: Result<T, Failure>, m: Result<T::V, FailureModel>) -> bool {
    match (r, m) {
        (Ok(x), Ok(y)) => x@ == y,
        (Err(e), Err(f)) => e@ == f,
        _ => false,
    }
}

/// An executable result matches a modelled one, values compared as they are.
pub open spec fn agrees_plain<T>(r: Result<T, Failure>, m: Result<T, FailureModel>) -> bool {
    match (r, m) {
        (Ok(x), Ok(y)) => x == y,
        (Err(e), Err(f)) => e@ == f,
        _ => false,
    }
}

impl Failure {
    pub fn new(kind: ErrorKind, token: &str) -> (r: Failure)
        ensures
            r@ == fail(kind, token@),
    {
        Failure { kind, token: token.to_owned() }
    }

    /// A failure whose token describes the offending value.
    pub fn of_value(kind: ErrorKind, v: &Value) -> (r: Failure)
        ensures
            r@ == fail(kind, value_token(*v)),
    {
        Failure { kind, token: describe(v) }
    }
}

/// The character of a decimal digit.
pub open spec fn digit_char(d: nat) -> char {
    if d == 0 {
        '0'
    } else if d == 1 {
        '1'
    } else if d == 2 {
        '2'
    } else if d == 3 {
        '3'
    } else if d == 4 {
        '4'
    } else if d == 5 {
        '5'
    } else if d == 6 {
        '6'
    } else if d == 7 {
        '7'
    } else if d == 8 {
        '8'
    } else {
        '9'
    }
}

/// The decimal digits of a natural number, most significant first.
pub open spec fn decimal_digits(n: nat) -> Seq<char>
    decreases n,
{
    if n < 10 {
        seq![digit_char(n)]
    } else {
        decimal_digits(n / 10).push(digit_char(n % 10))
    }
}

/// The decimal text of an integer, with a leading `-` when negative.
pub open spec fn decimal(n: int) -> Seq<char> {
    if n < 0 {
        seq!['-'] + decimal_digits((-n) as nat)
    } else {
        decimal_digits(n as nat)
    }
}

/// How a failure names an offending value: integers and texts as written,
/// lists and tables by their shape.
pub open spec fn value_token(v: Value) -> Seq<char> {
    match v {
        Value::Integer(n) => decimal(n as int),
        Value::Text(s) => s@,
        Value::List(_) => "[...]"@,
        Value::Table(_) => "{...}"@,
    }
}

fn digit_text(d: u64) -> (r: &'static str)
    requires
        d < 10,
    ensures
        r@ == seq![digit_char(d as nat)],
{
    proof {
        reveal_strlit("0");
        reveal_strlit("1");
        reveal_strlit("2");
        reveal_strlit("3");
        reveal_strlit("4");
        reveal_strlit("5");
        reveal_strlit("6");
        reveal_strlit("7");
        reveal_strlit("8");
        reveal_strlit("9");
    }
    let r = if d == 0 {
        "0"
    } else if d == 1 {
        "1"
    } else if d == 2 {
        "2"
    } else if d == 3 {
        "3"
    } else if d == 4 {
        "4"
    } else if d == 5 {
        "5"
    } else if d == 6 {
        "6"
    } else if d == 7 {
        "7"
    } else if d == 8 {
        "8"
    } else {
        "9"
    };
    assert(r@ =~= seq![digit_char(d as nat)]);
    r
}

fn push_digits(s: &mut String, m: u64)
    ensures
        final(s)@ == old(s)@ + decimal_digits(m as nat),
    decreases m,
{
    if m >= 10 {
        push_digits(s, m / 10);
    }
    let ghost before = s@;
    s.append(digit_text(m % 10));
    proof {
        if m >= 10 {
            assert(before + seq![digit_char((m % 10) as nat)] =~= old(s)@ + decimal_digits(
                (m / 10) as nat,
            ).push(digit_char((m % 10) as nat)));
        } else {
            assert(s@ =~= old(s)@ + decimal_digits(m as nat));
        }
    }
}

/// The decimal text of an integer.
pub fn decimal_text(n: i64) -> (r: String)
    ensures
        r@ == decimal(n as int),
{
    let mut r = String::new();
    if n < 0 {
        r.append("-");
        proof {
            reveal_strlit("-");
        }
        let m: u64 = (0i128 - n as i128) as u64;
        push_digits(&mut r, m);
        assert(r@ =~= seq!['-'] + decimal_digits((-n) as nat));
    } else {
        push_digits(&mut r, n as u64);
        assert(r@ =~= decimal_digits(n as nat));
    }
    r
}

/// Describes a value the way a failure names it.
pub fn describe(v: &Value) -> (r: String)
    ensures
        r@ == value_token(*v),
{
    match v {
        Value::Integer(n) => decimal_text(*n),
        Value::Text(s) => s.clone(),
        Value::List(_) => String::from_str("[...]"),
        Value::Table(_) => String::from_str("{...}"),
    }
}

/// Character-wise equality of two strings.
pub fn text_eq(a: &str, b: &str) -> (r: bool)
    ensures
        r == (a@ == b@),
{
    let n = a.unicode_len();
    if n != b.unicode_len() {
        return false;
    }
    let mut i: usize = 0;
    while i < n
        invariant
            n == a@.len(),
            n == b@.len(),
            i <= n,
            forall|j: int| 0 <= j < i ==> a@[j] == b@[j],
        decreases n - i,
    {
        if a.get_char(i) != b.get_char(i) {
            return false;
        }
        i = i + 1;
    }
    assert(a@ =~= b@);
    true
}

} // verus!
