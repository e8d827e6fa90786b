use vstd::prelude::*;
use crate::model::{ServicePort, ServicePortView};

verus! {

// ---------------------------------------------------------------------------
// The `"service:port"` scalar: parsing and canonical formatting.
//
// A string parses when it has a `:`, the part before the first `:` is not
// empty, and the part after it reads as an unsigned decimal number, with one
// optional leading `+`, of value at most 65535.
// ---------------------------------------------------------------------------

/// Whether `c` is a decimal digit.
pub open spec fn is_digit(c: char) -> bool {
    '0' <= c && c <= '9'
}

/// The numeric value of the digit `c`.
pub open spec fn digit_val(c: char) -> nat {
    ((c as nat) - ('0' as nat)) as nat
}

/// Whether every character of `s` is a decimal digit.
pub open spec fn all_digits(s: Seq<char>) -> bool {
    forall|i: int| 0 <= i < s.len() ==> is_digit(s[i])
}

/// The value of `s` read as a decimal numeral.
pub open spec fn digits_val(s: Seq<char>) -> nat
    decreases s.len(),
{
    if s.len() == 0 {
        0
    } else {
        digits_val(s.drop_last()) * 10 + digit_val(s.last())
    }
}

/// The port segment of a `"service:port"` string: one optional leading `+`,
/// then decimal digits whose value fits a 16-bit unsigned integer.
pub open spec fn parse_port(s: Seq<char>) -> Option<u16> {
    let t = if s.len() > 0 && s[0] == '+' {
        s.drop_first()
    } else {
        s
    };
    if t.len() > 0 && all_digits(t) && digits_val(t) <= 65535 {
        Some(digits_val(t) as u16)
    } else {
        None
    }
}

/// The index of the first `:` of `s`, or -1 when `s` has none.
pub open spec fn first_colon(s: Seq<char>) -> int
    decreases s.len(),
{
    if s.len() == 0 {
        -1
    } else if s[0] == ':' {
        0
    } else {
        let r = first_colon(s.drop_first());
        if r < 0 {
            -1
        } else {
            r + 1
        }
    }
}

/// What `ServicePort::parse` yields on the character sequence `s`: the split
/// of `s` at its first `:` into a non-empty service name and a port number.
pub open spec fn parse_service_port(s: Seq<char>) -> Option<ServicePortView> {
    let i = first_colon(s);
    if i <= 0 {
        None
    } else {
        match parse_port(s.skip(i + 1)) {
            Some(p) => Some(ServicePortView { service: s.take(i), port: p }),
            None => None,
        }
    }
}

/// The digit character of the value `d`, for `d < 10`.
pub open spec fn digit_char(d: nat) -> char {
    if d == 0 {
        '0'
    } else if d == 1 {
        '1'
    } else if d == 2 {
        '2'
    } else if d == 3 {
        '3'
    } else if d == 4 {
        '4'
    } else if d == 5 {
        '5'
    } else if d == 6 {
        '6'
    } else if d == 7 {
        '7'
    } else if d == 8 {
        '8'
    } else {
        '9'
    }
}

/// The plain decimal numeral of `n`: no sign, no padding, no leading zero
/// except for the numeral of zero itself.
pub open spec fn dec_digits(n: nat) -> Seq<char>
    decreases n,
{
    if n < 10 {
        seq![digit_char(n)]
    } else {
        dec_digits(n / 10) + seq![digit_char(n % 10)]
    }
}

/// The canonical text of a service port: the service name, `:`, and the
/// plain decimal numeral of the port.
pub open spec fn format_service_port(v: ServicePortView) -> Seq<char> {
    v.service + seq![':'] + dec_digits(v.port as nat)
}

/// A well-formed service port: the service name is non-empty and has no `:`,
/// which is what parsing guarantees of every value it yields.
pub open spec fn service_port_wf(v: ServicePortView) -> bool {
    &&& v.service.len() > 0
    &&& forall|i: int| 0 <= i < v.service.len() ==> v.service[i] != ':'
}

/// `first_colon` names the first `:`: it is in range, it points at a `:`,
/// and nothing before it is one; when it is -1 there is no `:` at all.
pub proof fn lemma_first_colon(s: Seq<char>)
    ensures
        first_colon(s) == -1 ==> forall|i: int| 0 <= i < s.len() ==> s[i] != ':',
        first_colon(s) >= 0 ==> 0 <= first_colon(s) < s.len() && s[first_colon(s)] == ':' && forall|
            i: int,
        | 0 <= i < first_colon(s) ==> s[i] != ':',
    decreases s.len(),
{
    if s.len() == 0 {
    } else if s[0] == ':' {
    } else {
        lemma_first_colon(s.drop_first());
        assert forall|i: int| 0 <= i < s.len() && first_colon(s) == -1 implies s[i] != ':' by {
            if i > 0 {
                assert(s.drop_first()[i - 1] == s[i]);
            }
        }
        if first_colon(s) >= 0 {
            assert(s[first_colon(s)] == s.drop_first()[first_colon(s) - 1]);
            assert forall|i: int| 0 <= i < first_colon(s) implies s[i] != ':' by {
                if i > 0 {
                    assert(s.drop_first()[i - 1] == s[i]);
                }
            }
        }
    }
}

/// `first_colon` is determined by its characterization: if position `i`
/// holds the first `:`, then `first_colon` is `i`.
pub proof fn lemma_first_colon_at(s: Seq<char>, i: int)
    requires
        0 <= i < s.len(),
        s[i] == ':',
        forall|j: int| 0 <= j < i ==> s[j] != ':',
    ensures
        first_colon(s) == i,
    decreases s.len(),
{
    if i == 0 {
    } else {
        assert forall|j: int| 0 <= j < i - 1 implies s.drop_first()[j] != ':' by {
            assert(s.drop_first()[j] == s[j + 1]);
        }
        assert(s.drop_first()[i - 1] == s[i]);
        lemma_first_colon_at(s.drop_first(), i - 1);
    }
}

/// When no character of `s` is a `:`, `first_colon` is -1.
pub proof fn lemma_first_colon_none(s: Seq<char>)
    requires
        forall|i: int| 0 <= i < s.len() ==> s[i] != ':',
    ensures
        first_colon(s) == -1,
    decreases s.len(),
{
    if s.len() > 0 {
        assert forall|i: int| 0 <= i < s.drop_first().len() implies s.drop_first()[i] != ':' by {
            assert(s.drop_first()[i] == s[i + 1]);
        }
        lemma_first_colon_none(s.drop_first());
    }
}

/// The decimal numeral of `n` is all digits, is non-empty, and does not
/// start with `+`; read back as a numeral it gives `n` again.
pub proof fn lemma_dec_digits(n: nat)
    ensures
        dec_digits(n).len() > 0,
        all_digits(dec_digits(n)),
        dec_digits(n)[0] != '+',
        digits_val(dec_digits(n)) == n,
    decreases n,
{
    if n < 10 {
        assert(dec_digits(n) =~= seq![digit_char(n)]);
        assert(digits_val(dec_digits(n)) == digits_val(seq![digit_char(n)].drop_last()) * 10
            + digit_val(digit_char(n)));
        assert(seq![digit_char(n)].drop_last() =~= Seq::<char>::empty());
    } else {
        lemma_dec_digits(n / 10);
        let d = dec_digits(n / 10);
        let w = dec_digits(n);
        assert(w == d + seq![digit_char(n % 10)]);
        assert(w.drop_last() =~= d);
        assert(w.last() == digit_char(n % 10));
        assert(digit_val(digit_char(n % 10)) == n % 10);
        assert(digits_val(w) == (n / 10) * 10 + n % 10);
        assert forall|i: int| 0 <= i < w.len() implies is_digit(w[i]) by {
            if i < d.len() {
                assert(w[i] == d[i]);
            }
        }
    }
}

/// Formatting then parsing gives the service port back: `Parse(Format(v))`
/// is `v` for every well-formed `v`.
pub proof fn lemma_service_port_round_trip(v: ServicePortView)
    requires
        service_port_wf(v),
    ensures
        parse_service_port(format_service_port(v)) == Some(v),
{
    let s = format_service_port(v);
    let k = v.service.len() as int;
    lemma_dec_digits(v.port as nat);
    assert(s[k] == ':');
    assert forall|j: int| 0 <= j < k implies s[j] != ':' by {
        assert(s[j] == v.service[j]);
    }
    lemma_first_colon_at(s, k);
    assert(s.take(k) =~= v.service);
    assert(s.skip(k + 1) =~= dec_digits(v.port as nat));
    let t = s.skip(k + 1);
    assert(parse_port(t) == Some(v.port)) by {
        assert(t[0] != '+');
        assert(digits_val(t) == v.port as nat);
    }
}

/// The parsed form of any string is well-formed: its service name is
/// non-empty and holds no `:`.
pub proof fn lemma_parse_wf(s: Seq<char>)
    ensures
        parse_service_port(s) matches Some(v) ==> service_port_wf(v),
{
    lemma_first_colon(s);
    if first_colon(s) > 0 {
        let i = first_colon(s);
        assert forall|j: int| 0 <= j < s.take(i).len() implies s.take(i)[j] != ':' by {
            assert(s.take(i)[j] == s[j]);
        }
    }
}

impl ServicePort {
    /// Splits `s` at its first `:` into a service name and a port number.
    ///
    /// Yields nothing when `s` has no `:`, when the part before the first
    /// `:` is empty, or when the part after it does not read as an unsigned
    /// decimal number of value at most 65535.
    #[verifier::loop_isolation(false)]
    pub fn parse(s: &str) -> (r: Option<ServicePort>)
        ensures
            r.deep_view() == parse_service_port(s@),
    {
        let n = s.unicode_len();
        let i = find_colon(s);
        if i == n {
            proof {
                lemma_first_colon_none(s@);
            }
            return None;
        }
        if i == 0 {
            proof {
                lemma_first_colon_at(s@, 0);
            }
            return None;
        }
        proof {
            lemma_first_colon_at(s@, i as int);
        }
        let mut k: usize = i + 1;
        if k < n && s.get_char(k) == '+' {
            k = k + 1;
        }
        let ghost t0 = s@.skip(i + 1);
        let ghost t = if t0.len() > 0 && t0[0] == '+' {
            t0.drop_first()
        } else {
            t0
        };
        proof {
            if i + 1 < n {
                assert(t0[0] == s@[i + 1]);
            }
            assert(t =~= s@.skip(k as int));
        }
        if k == n {
            assert(t.len() == 0);
            return None;
        }
        let mut val: u32 = 0;
        let mut over: bool = false;
        let mut j: usize = k;
        while j < n
            invariant
                n == s@.len(),
                k <= j <= n,
                k < n,
                t =~= s@.skip(k as int),
                all_digits(s@.subrange(k as int, j as int)),
                !over ==> val <= 65535 && val as nat == digits_val(s@.subrange(k as int, j as int)),
                over ==> digits_val(s@.subrange(k as int, j as int)) > 65535,
            decreases n - j,
        {
            let c = s.get_char(j);
            let cv = c as u32;
            if cv < 48 || cv > 57 {
                proof {
                    assert(!is_digit(s@[j as int]));
                    assert(t[j - k] == s@[j as int]);
                    assert(!all_digits(t));
                }
                return None;
            }
            proof {
                assert(s@.subrange(k as int, j + 1 as int).drop_last() =~= s@.subrange(
                    k as int,
                    j as int,
                ));
                assert(s@.subrange(k as int, j + 1 as int).last() == s@[j as int]);
                assert(is_digit(s@[j as int]));
                assert(digit_val(s@[j as int]) == cv - 48);
            }
            if over {
                proof {
                    let p = s@.subrange(k as int, j as int);
                    let q = s@.subrange(k as int, j + 1 as int);
                    assert(digits_val(q) == digits_val(p) * 10 + digit_val(s@[j as int]));
                }
            } else {
                let nv = val * 10 + (cv - 48);
                if nv > 65535 {
                    over = true;
                } else {
                    val = nv;
                }
            }
            j = j + 1;
        }
        proof {
            assert(s@.subrange(k as int, n as int) =~= t);
            assert(t.len() > 0);
        }
        if over {
            return None;
        }
        let service = s.substring_char(0, i);
        proof {
            assert(service@ =~= s@.take(i as int));
        }
        let sp = ServicePort { service: service.to_owned(), port: val as u16 };
        proof {
            assert(sp.deep_view() =~= parse_service_port(s@)->0);
        }
        Some(sp)
    }

    /// The canonical text of this service port: the service name, `:`, and
    /// the plain decimal numeral of the port.
    pub fn format(&self) -> (r: String)
        ensures
            r@ == format_service_port(self.deep_view()),
    {
        let mut r = self.service.clone();
        proof {
            reveal_strlit(":");
        }
        r.append(":");
        let d = u64_numeral(self.port as u64);
        r.append(d.as_str());
        proof {
            assert(r@ =~= format_service_port(self.deep_view())) by {
                assert(":"@ =~= seq![':']);
            }
        }
        r
    }
}

/// The position of the first `:` of `s`, or its length when it has none.
fn find_colon(s: &str) -> (r: usize)
    ensures
        r <= s@.len(),
        r < s@.len() ==> s@[r as int] == ':',
        forall|j: int| 0 <= j < r ==> s@[j] != ':',
{
    let n = s.unicode_len();
    let mut i: usize = 0;
    while i < n
        invariant
            n == s@.len(),
            i <= n,
            forall|j: int| 0 <= j < i ==> s@[j] != ':',
        decreases n - i,
    {
        if s.get_char(i) == ':' {
            return i;
        }
        i = i + 1;
    }
    n
}

/// One digit as text; `d` must be below ten.
fn digit_text(d: u32) -> (r: &'static str)
    requires
        d < 10,
    ensures
        r@ == seq![digit_char(d as nat)],
{
    proof {
        reveal_strlit("0");
        reveal_strlit("1");
        reveal_strlit("2");
        reveal_strlit("3");
        reveal_strlit("4");
        reveal_strlit("5");
        reveal_strlit("6");
        reveal_strlit("7");
        reveal_strlit("8");
        reveal_strlit("9");
    }
    let r = if d == 0 {
        "0"
    } else if d == 1 {
        "1"
    } else if d == 2 {
        "2"
    } else if d == 3 {
        "3"
    } else if d == 4 {
        "4"
    } else if d == 5 {
        "5"
    } else if d == 6 {
        "6"
    } else if d == 7 {
        "7"
    } else if d == 8 {
        "8"
    } else {
        "9"
    };
    proof {
        assert(r@ =~= seq![digit_char(d as nat)]);
    }
    r
}

/// The plain decimal numeral of `n`.
pub(crate) fn u64_numeral(n: u64) -> (r: String)
    ensures
        r@ == dec_digits(n as nat),
    decreases n,
{
    let d = n % 10;
    if n < 10 {
        let r = String::from_str(digit_text((n % 10) as u32));
        proof {
            assert(r@ =~= dec_digits(n as nat));
        }
        r
    } else {
        let mut r = u64_numeral(n / 10);
        r.append(digit_text(d as u32));
        proof {
            assert((n / 10) as nat == (n as nat) / 10);
            assert((n % 10) as nat == (n as nat) % 10);
            assert(r@ =~= dec_digits(n as nat));
        }
        r
    }
}

/// The plain decimal text of the integer `i`, with a leading `-` when it is
/// negative.
pub open spec fn int_text(i: int) -> Seq<char> {
    if i < 0 {
        seq!['-'] + dec_digits((-i) as nat)
    } else {
        dec_digits(i as nat)
    }
}

/// The plain decimal text of `n`.
pub(crate) fn i64_text(n: i64) -> (r: String)
    ensures
        r@ == int_text(n as int),
{
    if n < 0 {
        let m: u64 = (-(n as i128)) as u64;
        proof {
            reveal_strlit("-");
        }
        let mut r = String::from_str("-");
        let d = u64_numeral(m);
        r.append(d.as_str());
        proof {
            assert("-"@ =~= seq!['-']);
            assert(r@ =~= int_text(n as int));
        }
        r
    } else {
        u64_numeral(n as u64)
    }
}

} // verus!
