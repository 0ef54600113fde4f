//! Status texts about the augmentation service, built from what its queries
//! printed.
use vstd::prelude::*;
use crate::bridge::{is_white, white};
use crate::numtext::{decimal, decimal_text};
use crate::text::texts;

verus! {

pub open spec fn trim_start(s: Seq<char>) -> Seq<char>
    decreases s.len(),
{
    if s.len() > 0 && is_white(s[0]) {
        trim_start(s.drop_first())
    } else {
        s
    }
}

pub open spec fn trim_end(s: Seq<char>) -> Seq<char>
    decreases s.len(),
{
    if s.len() > 0 && is_white(s.last()) {
        trim_end(s.drop_last())
    } else {
        s
    }
}

/// `s` without leading and trailing white space.
pub open spec fn trim(s: Seq<char>) -> Seq<char> {
    trim_end(trim_start(s))
}

pub open spec fn is_digit(c: char) -> bool {
    '0' <= c <= '9'
}

pub open spec fn all_digits(d: Seq<char>) -> bool {
    forall|i: int| 0 <= i < d.len() ==> is_digit(#[trigger] d[i])
}

/// The number that a string of decimal digits denotes.
pub open spec fn digits_value(d: Seq<char>) -> nat
    decreases d.len(),
{
    if d.len() == 0 {
        0
    } else {
        digits_value(d.drop_last()) * 10 + ((d.last() as nat) - 48) as nat
    }
}

/// An unsigned number as `str::parse::<usize>` reads it: an optional `+`,
/// then one or more decimal digits, of a value that fits.
pub open spec fn parse_usize(t: Seq<char>) -> Option<nat> {
    let d = if t.len() > 0 && t[0] == '+' {
        t.drop_first()
    } else {
        t
    };
    if d.len() > 0 && all_digits(d) && digits_value(d) <= usize::MAX {
        Some(digits_value(d))
    } else {
        None
    }
}

/// The count that the service-count query printed; 0 when it is not a number.
pub open spec fn service_count_of(s: Seq<char>) -> nat {
    match parse_usize(trim(s)) {
        Some(n) => n,
        None => 0,
    }
}

proof fn lemma_trim_start_step(s: Seq<char>, a: int)
    requires
        0 <= a < s.len(),
        is_white(s[a]),
    ensures
        trim_start(s.subrange(a, s.len() as int)) == trim_start(s.subrange(a + 1, s.len() as int)),
{
    assert(s.subrange(a, s.len() as int).drop_first() =~= s.subrange(a + 1, s.len() as int));
}

proof fn lemma_trim_end_step(s: Seq<char>, b: int)
    requires
        0 < b <= s.len(),
        is_white(s[b - 1]),
    ensures
        trim_end(s.subrange(0, b)) == trim_end(s.subrange(0, b - 1)),
{
    assert(s.subrange(0, b).drop_last() =~= s.subrange(0, b - 1));
}

proof fn lemma_digits_grow(d: Seq<char>, k: int)
    requires
        0 <= k <= d.len(),
        forall|i: int| 0 <= i < d.len() ==> is_digit(#[trigger] d[i]),
    ensures
        digits_value(d.subrange(0, k)) <= digits_value(d),
    decreases d.len() - k,
{
    if k < d.len() {
        lemma_digits_grow(d, k + 1);
        assert(d.subrange(0, k + 1).drop_last() =~= d.subrange(0, k));
    } else {
        assert(d.subrange(0, k) =~= d);
    }
}

proof fn lemma_overflow_too_big(d: Seq<char>, k: int)
    requires
        0 <= k < d.len(),
        digits_value(d.subrange(0, k + 1)) > usize::MAX,
    ensures
        (forall|i: int| 0 <= i < d.len() ==> is_digit(#[trigger] d[i])) ==> digits_value(d)
            > usize::MAX,
{
    if forall|i: int| 0 <= i < d.len() ==> is_digit(#[trigger] d[i]) {
        lemma_digits_grow(d, k + 1);
    }
}

/// `s` without surrounding white space.
pub fn trimmed(s: &str) -> (r: String)
    ensures
        r@ == trim(s@),
{
    let n = s.unicode_len();
    let mut a: usize = 0;
    proof {
        assert(s@.subrange(0, n as int) =~= s@);
    }
    while a < n && white(s.get_char(a))
        invariant
            n == s@.len(),
            a <= n,
            trim_start(s@) == trim_start(s@.subrange(a as int, n as int)),
        decreases n - a,
    {
        proof {
            lemma_trim_start_step(s@, a as int);
        }
        a = a + 1;
    }
    let t = s.substring_char(a, n);
    proof {
        if a < n {
            assert(!is_white(t@[0]));
        } else {
            assert(t@.len() == 0);
        }
        assert(trim_start(s@) == t@);
    }
    let m = t.unicode_len();
    let mut b: usize = m;
    proof {
        assert(t@.subrange(0, m as int) =~= t@);
    }
    while b > 0 && white(t.get_char(b - 1))
        invariant
            m == t@.len(),
            b <= m,
            trim_end(t@) == trim_end(t@.subrange(0, b as int)),
        decreases b,
    {
        proof {
            lemma_trim_end_step(t@, b as int);
        }
        b = b - 1;
    }
    let r = t.substring_char(0, b).to_string();
    proof {
        if b > 0 {
            assert(r@.last() == t@[b - 1]);
        }
        assert(trim_end(r@) == r@);
    }
    r
}

/// Reads a number as `str::parse::<usize>` does.
pub fn parse_count(t: &str) -> (r: Option<usize>)
    ensures
        match r {
            Some(v) => parse_usize(t@) == Some(v as nat),
            None => parse_usize(t@) is None,
        },
{
    let n = t.unicode_len();
    let start: usize = if n > 0 && t.get_char(0) == '+' {
        1
    } else {
        0
    };
    let d = t.substring_char(start, n);
    proof {
        if start == 1 {
            assert(d@ =~= t@.drop_first());
        } else {
            assert(d@ =~= t@);
        }
    }
    let m = d.unicode_len();
    if m == 0 {
        return None;
    }
    let mut value: usize = 0;
    let mut k: usize = 0;
    while k < m
        invariant
            m == d@.len(),
            m > 0,
            d@ == (if t@.len() > 0 && t@[0] == '+' {
                t@.drop_first()
            } else {
                t@
            }),
            k <= m,
            forall|i: int| 0 <= i < k ==> is_digit(#[trigger] d@[i]),
            value as nat == digits_value(d@.subrange(0, k as int)),
        decreases m - k,
    {
        let c = d.get_char(k);
        if !('0' <= c && c <= '9') {
            proof {
                assert(!is_digit(d@[k as int]));
                assert(!(forall|i: int| 0 <= i < d@.len() ==> is_digit(#[trigger] d@[i])));
            }
            return None;
        }
        proof {
            assert(d@.subrange(0, k + 1).drop_last() =~= d@.subrange(0, k as int));
        }
        let digit = (c as u32 - 48) as usize;
        proof {
            assert(digits_value(d@.subrange(0, k + 1)) == value * 10 + digit);
        }
        match value.checked_mul(10) {
            Some(tens) => match tens.checked_add(digit) {
                Some(next) => {
                    value = next;
                },
                None => {
                    proof {
                        assert(digits_value(d@.subrange(0, k + 1)) > usize::MAX);
                        lemma_overflow_too_big(d@, k as int);
                    }
                    return None;
                },
            },
            None => {
                proof {
                    assert(digits_value(d@.subrange(0, k + 1)) > usize::MAX);
                }
                proof {
                    lemma_overflow_too_big(d@, k as int);
                }
                return None;
            },
        }
        k = k + 1;
    }
    proof {
        assert(d@.subrange(0, m as int) =~= d@);
    }
    Some(value)
}

/// The count that the service-count query printed: its trimmed output read
/// as a number, or 0 when that is not a number.
pub fn service_count(stdout: &str) -> (r: usize)
    ensures
        r as nat == service_count_of(stdout@),
{
    let t = trimmed(stdout);
    match parse_count(t.as_str()) {
        Some(n) => n,
        None => 0,
    }
}

/// The program that runs the augmentation service's scripts.
pub const SERVICE_PROGRAM: &'static str = "python3";

/// Script that prints how many services the augmentation service has.
pub const SERVICE_COUNT_SCRIPT: &'static str = "
import sys
sys.path.insert(0, '../src')
try:
    from core.autowire import get_autowire
    autowire = get_autowire()
    print(len(autowire.get_registry_info()))
except:
    print(0)
";

/// Script that prints the service names as a JSON list of strings.
pub const SERVICE_LIST_SCRIPT: &'static str = "
import sys
import json
sys.path.insert(0, '../src')
try:
    from core.autowire import get_autowire
    autowire = get_autowire()
    services = list(autowire.get_registry_info().keys())
    print(json.dumps(services))
except:
    print(\"[]\")
";

/// Script that checks the interpreter at start.
pub const PROBE_SCRIPT: &'static str = "import sys; print(sys.version)";

/// Script that initialises the augmentation service at start.
pub const INIT_SCRIPT: &'static str = "
import sys
sys.path.insert(0, '../src')
from core.autowire import get_autowire
autowire = get_autowire()
print(f\"Auto-Wire initialized with {len(autowire.get_registry_info())} components\")
";

pub const CONNECTED_PREFIX: &'static str = "\u{2705} Connected - ";
pub const CONNECTED_SUFFIX: &'static str = " services";
pub const NOT_CONNECTED: &'static str = "\u{26A0}\u{FE0F}  Not connected";

/// The status line: connected with the number of services, when
/// augmentation is enabled, else not connected.
pub fn autowire_status(service_count: Option<usize>) -> (r: String)
    ensures
        service_count matches Some(n) ==> r@ == CONNECTED_PREFIX@ + decimal_text(n as nat)
            + CONNECTED_SUFFIX@,
        service_count is None ==> r@ == NOT_CONNECTED@,
{
    match service_count {
        Some(n) => {
            let mut s = String::from_str(CONNECTED_PREFIX);
            let digits = decimal(n);
            s.append(digits.as_str());
            s.append(CONNECTED_SUFFIX);
            s
        },
        None => String::from_str(NOT_CONNECTED),
    }
}

pub const NO_SERVICES: &'static str = "Auto-wiring not available";

/// The services to list: those the service named when augmentation is
/// enabled, else a single line saying it is not available.
pub fn autowire_services(listed: Option<Vec<String>>) -> (r: Vec<String>)
    ensures
        listed matches Some(v) ==> texts(r@) == texts(v@),
        listed is None ==> texts(r@) == seq![NO_SERVICES@],
{
    match listed {
        Some(v) => v,
        None => {
            let mut r: Vec<String> = Vec::new();
            r.push(String::from_str(NO_SERVICES));
            proof {
                assert(texts(r@) =~= seq![NO_SERVICES@]);
            }
            r
        },
    }
}

/// How many services the panel names; the rest are only counted.
pub const PANEL_SERVICES: usize = 10;

/// The services that the panel names, and how many more there are.
pub fn panel_services(services: &Vec<String>) -> (r: (Vec<String>, usize))
    ensures
        services@.len() <= PANEL_SERVICES ==> texts(r.0@) == texts(services@) && r.1 == 0,
        services@.len() > PANEL_SERVICES ==> texts(r.0@) == texts(services@).take(
            PANEL_SERVICES as int,
        ) && r.1 == services@.len() - PANEL_SERVICES,
{
    let n = services.len();
    let shown = if n < PANEL_SERVICES {
        n
    } else {
        PANEL_SERVICES
    };
    let mut r: Vec<String> = Vec::new();
    let mut i: usize = 0;
    while i < shown
        invariant
            shown <= n,
            n == services@.len(),
            i <= shown,
            texts(r@) == texts(services@).take(i as int),
        decreases shown - i,
    {
        let ghost before = r@;
        r.push(services[i].clone());
        proof {
            assert(texts(r@) =~= texts(before).push(services@[i as int]@));
            assert(texts(services@).take(i + 1) =~= texts(services@).take(i as int).push(
                services@[i as int]@,
            ));
        }
        i = i + 1;
    }
    proof {
        if n <= PANEL_SERVICES {
            assert(texts(services@).take(n as int) =~= texts(services@));
        }
    }
    (r, n - shown)
}

pub const PYTHON_MISSING: &'static str = "Auto-wiring disabled (Python not found)";
pub const FALLBACK_MODE: &'static str = "Auto-wiring available in fallback mode";

/// The status reported at start: what the initialisation run printed,
/// trimmed, when it succeeded; otherwise why augmentation is limited.
pub fn startup_status(python_found: bool, init_succeeded: bool, init_stdout: &str) -> (r: String)
    ensures
        !python_found ==> r@ == PYTHON_MISSING@,
        python_found && init_succeeded ==> r@ == trim(init_stdout@),
        python_found && !init_succeeded ==> r@ == FALLBACK_MODE@,
{
    if !python_found {
        String::from_str(PYTHON_MISSING)
    } else if init_succeeded {
        trimmed(init_stdout)
    } else {
        String::from_str(FALLBACK_MODE)
    }
}

} // verus!
