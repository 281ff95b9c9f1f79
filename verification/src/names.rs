//! Logical database names and the URIs that address them.
//!
//! A generated name is the prefix `shared_` followed by the decimal digits of
//! a counter value. The URI of a name places it between a fixed scheme and a
//! fixed query that asks the engine for a shared in-memory database.

use vstd::prelude::*;

verus! {

/// The character of a single decimal digit.
pub open spec fn digit_char(d: nat) -> char
    recommends
        d < 10,
{
    if d == 0 {
        '0'
    } else if d == 1 {
        '1'
    } else if d == 2 {
        '2'
    } else if d == 3 {
        '3'
    } else if d == 4 {
        '4'
    } else if d == 5 {
        '5'
    } else if d == 6 {
        '6'
    } else if d == 7 {
        '7'
    } else if d == 8 {
        '8'
    } else {
        '9'
    }
}

/// The decimal digits of `n`, most significant first, without leading zeros.
pub open spec fn decimal(n: nat) -> Seq<char>
    decreases n,
{
    if n < 10 {
        seq![digit_char(n)]
    } else {
        decimal(n / 10).push(digit_char(n % 10))
    }
}

/// What every generated name starts with.
pub open spec fn name_prefix() -> Seq<char> {
    "shared_"@
}

/// The generated name for counter value `n`.
pub open spec fn shared_name_spec(n: u64) -> Seq<char> {
    name_prefix() + decimal(n as nat)
}

/// What every URI starts with.
pub open spec fn uri_scheme() -> Seq<char> {
    "file:"@
}

/// What every URI ends with: an in-memory database in shared-cache mode.
pub open spec fn uri_query() -> Seq<char> {
    "?mode=memory&cache=shared"@
}

/// The URI that addresses the shared in-memory database called `name`. The
/// name is taken as it is, with no escaping.
pub open spec fn open_uri_spec(name: Seq<char>) -> Seq<char> {
    uri_scheme() + name + uri_query()
}

/// A decimal representation is never empty.
pub proof fn lemma_decimal_nonempty(n: nat)
    ensures
        decimal(n).len() >= 1,
    decreases n,
{
    if n >= 10 {
        lemma_decimal_nonempty(n / 10);
    }
}

/// Different numbers have different decimal representations.
pub proof fn lemma_decimal_injective(a: nat, b: nat)
    requires
        decimal(a) == decimal(b),
    ensures
        a == b,
    decreases a,
{
    if a < 10 && b < 10 {
        assert(decimal(a)[0] == digit_char(a));
        assert(decimal(b)[0] == digit_char(b));
    } else if a < 10 {
        // one digit against two or more
        lemma_decimal_nonempty(b / 10);
        assert(decimal(a).len() == 1 && decimal(b).len() >= 2);
    } else if b < 10 {
        lemma_decimal_nonempty(a / 10);
        assert(decimal(b).len() == 1 && decimal(a).len() >= 2);
    } else {
        // equal last digits, and equal digits before them
        let da = decimal(a / 10);
        let db = decimal(b / 10);
        let ca = digit_char(a % 10);
        let cb = digit_char(b % 10);
        assert(da.push(ca).last() == ca && db.push(cb).last() == cb);
        assert(da.push(ca).drop_last() == da && db.push(cb).drop_last() == db);
        lemma_decimal_injective(a / 10, b / 10);
        assert(a % 10 == b % 10);
    }
}

/// Two sequences that are equal after the same prefix was put before each
/// are equal.
pub proof fn lemma_same_prefix_cancels(prefix: Seq<char>, x: Seq<char>, y: Seq<char>)
    requires
        prefix + x == prefix + y,
    ensures
        x == y,
{
    let n = prefix.len() as int;
    assert(x =~= (prefix + x).subrange(n, n + x.len()));
    assert(y =~= (prefix + y).subrange(n, n + y.len()));
    assert((prefix + x).len() == (prefix + y).len());
}

/// Two sequences that are equal after the same suffix was put behind each
/// are equal.
pub proof fn lemma_same_suffix_cancels(x: Seq<char>, y: Seq<char>, suffix: Seq<char>)
    requires
        x + suffix == y + suffix,
    ensures
        x == y,
{
    assert(x =~= (x + suffix).subrange(0, x.len() as int));
    assert(y =~= (y + suffix).subrange(0, y.len() as int));
    assert((x + suffix).len() == (y + suffix).len());
}

/// Generated names never collide: two counter values give the same name only
/// if they are the same value.
pub proof fn lemma_shared_names_differ(i: u64, j: u64)
    ensures
        shared_name_spec(i) == shared_name_spec(j) <==> i == j,
{
    if shared_name_spec(i) == shared_name_spec(j) {
        lemma_same_prefix_cancels(name_prefix(), decimal(i as nat), decimal(j as nat));
        lemma_decimal_injective(i as nat, j as nat);
    }
}

/// URIs never collide: two names give the same URI only if they are the same
/// name.
pub proof fn lemma_open_uris_differ(a: Seq<char>, b: Seq<char>)
    ensures
        open_uri_spec(a) == open_uri_spec(b) <==> a == b,
{
    if open_uri_spec(a) == open_uri_spec(b) {
        lemma_same_suffix_cancels(uri_scheme() + a, uri_scheme() + b, uri_query());
        lemma_same_prefix_cancels(uri_scheme(), a, b);
    }
}

/// The one-character string of a decimal digit.
fn digit_str(d: u64) -> (s: &'static str)
    requires
        d < 10,
    ensures
        s@ == seq![digit_char(d as nat)],
{
    proof {
        reveal_strlit("0");
        reveal_strlit("1");
        reveal_strlit("2");
        reveal_strlit("3");
        reveal_strlit("4");
        reveal_strlit("5");
        reveal_strlit("6");
        reveal_strlit("7");
        reveal_strlit("8");
        reveal_strlit("9");
    }
    let s = if d == 0 {
        "0"
    } else if d == 1 {
        "1"
    } else if d == 2 {
        "2"
    } else if d == 3 {
        "3"
    } else if d == 4 {
        "4"
    } else if d == 5 {
        "5"
    } else if d == 6 {
        "6"
    } else if d == 7 {
        "7"
    } else if d == 8 {
        "8"
    } else {
        "9"
    };
    assert(s@ =~= seq![digit_char(d as nat)]);
    s
}

/// Writes `n` in decimal digits.
pub fn decimal_string(n: u64) -> (s: String)
    ensures
        s@ == decimal(n as nat),
    decreases n,
{
    if n < 10 {
        String::from_str(digit_str(n))
    } else {
        let mut s = decimal_string(n / 10);
        s.append(digit_str(n % 10));
        assert(s@ =~= decimal((n / 10) as nat).push(digit_char((n % 10) as nat)));
        s
    }
}

/// The generated name for counter value `n`: `shared_` and the decimal
/// digits of `n`.
pub fn shared_name(n: u64) -> (name: String)
    ensures
        name@ == shared_name_spec(n),
{
    let digits = decimal_string(n);
    let mut name = String::from_str("shared_");
    name.append(digits.as_str());
    name
}

/// The URI under which the engine opens the shared in-memory database called
/// `name`: `file:<name>?mode=memory&cache=shared`.
pub fn open_uri(name: &str) -> (uri: String)
    ensures
        uri@ == open_uri_spec(name@),
{
    let mut uri = String::from_str("file:");
    uri.append(name);
    uri.append("?mode=memory&cache=shared");
    uri
}

} // verus!
