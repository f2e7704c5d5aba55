use vstd::prelude::*;
use rand::seq::SliceRandom;
use rand::Rng;

use crate::errors::Errcode;
use crate::plan::{OpView, StepView, SysOp, SysStep};

use crate::text::push_char;

verus! {

pub const HOSTNAME_NAMES: [&'static str; 8] = [
    "centopercento",
    "poppiesfromsrilanka",
    "filmsenzavolume",
    "(arrivo?)",
    "stupidi",
    "bolobynight",
    "ghettoblaster",
    "disneyinferno",
];

pub const HOSTNAME_ADJ: [&'static str; 16] = [
    "kaos",
    "fibra",
    "nerone",
    "bassi",
    "salmo",
    "nitro",
    "jthesmoker",
    "kidyugi",
    "inoki",
    "cgold",
    "8blevrai",
    "egreen",
    "nayt",
    "jm",
    "gue",
    "rancore",
];

/// The decimal digit `d` as a character.
pub open spec fn digit_char(d: nat) -> char {
    if d == 0 {
        '0'
    } else if d == 1 {
        '1'
    } else if d == 2 {
        '2'
    } else if d == 3 {
        '3'
    } else if d == 4 {
        '4'
    } else if d == 5 {
        '5'
    } else if d == 6 {
        '6'
    } else if d == 7 {
        '7'
    } else if d == 8 {
        '8'
    } else {
        '9'
    }
}

/// The decimal writing of `n`, without leading zeros.
pub open spec fn decimal(n: nat) -> Seq<char>
    decreases n,
{
    if n < 10 {
        seq![digit_char(n)]
    } else {
        decimal(n / 10).push(digit_char(n % 10))
    }
}

/// The hostname made of an adjective, a name and a number: `adj-name-num`.
pub open spec fn hostname_text(adj: Seq<char>, name: Seq<char>, num: u8) -> Seq<char> {
    adj + seq!['-'] + name + seq!['-'] + decimal(num as nat)
}

/// A hostname that `generate_hostname` can give: one of the adjectives, one of
/// the names and a number of one byte.
pub open spec fn is_generated_hostname(h: Seq<char>) -> bool {
    exists|a: int, n: int, num: u8|
        0 <= a < HOSTNAME_ADJ@.len() && 0 <= n < HOSTNAME_NAMES@.len() && h == hostname_text(
            HOSTNAME_ADJ@[a]@,
            HOSTNAME_NAMES@[n]@,
            num,
        )
}

fn digit(d: u8) -> (c: char)
    requires
        d < 10,
    ensures
        c == digit_char(d as nat),
{
    if d == 0 {
        '0'
    } else if d == 1 {
        '1'
    } else if d == 2 {
        '2'
    } else if d == 3 {
        '3'
    } else if d == 4 {
        '4'
    } else if d == 5 {
        '5'
    } else if d == 6 {
        '6'
    } else if d == 7 {
        '7'
    } else if d == 8 {
        '8'
    } else {
        '9'
    }
}

/// Appends the decimal writing of `num` to `s`.
pub fn push_decimal(s: &mut String, num: u8)
    ensures
        final(s)@ == old(s)@ + decimal(num as nat),
{
    proof {
        reveal_with_fuel(decimal, 3);
    }
    if num >= 100 {
        assert(num as nat / 10 / 10 == num as nat / 100);
        push_char(s, digit(num / 100));
        push_char(s, digit((num / 10) % 10));
        push_char(s, digit(num % 10));
    } else if num >= 10 {
        push_char(s, digit(num / 10));
        push_char(s, digit(num % 10));
    } else {
        push_char(s, digit(num));
    }
    assert(final(s)@ =~= old(s)@ + decimal(num as nat));
}

/// Writes the hostname `adj-name-num`.
pub fn format_hostname(adj: &str, name: &str, num: u8) -> (h: String)
    ensures
        h@ == hostname_text(adj@, name@, num),
{
    let mut h = String::from_str(adj);
    push_char(&mut h, '-');
    h.append(name);
    push_char(&mut h, '-');
    push_decimal(&mut h, num);
    assert(h@ =~= hostname_text(adj@, name@, num));
    h
}

/// A number of one byte drawn from the thread's random generator
/// (`rand::Rng::gen::<u8>`). Nothing is stated of which number comes out.
#[verifier::external_body]
fn random_byte() -> u8 {
    rand::thread_rng().gen::<u8>()
}

/// One word of `words` drawn with the thread's random generator
/// (`rand::seq::SliceRandom::choose`): `None` exactly for an empty slice,
/// and otherwise one of its items.
#[verifier::external_body]
fn choose_word(words: &[&'static str]) -> (r: Option<&'static str>)
    ensures
        r is None <==> words@.len() == 0,
        r matches Some(w) ==> words@.contains(w),
{
    words.choose(&mut rand::thread_rng()).copied()
}

/// Draws a hostname `adj-name-num` for the container. The word lists are not
/// empty, so a hostname always comes out.
pub fn generate_hostname() -> (r: Result<String, Errcode>)
    ensures
        r matches Ok(h) && is_generated_hostname(h@),
{
    let num = random_byte();
    let name = match choose_word(&HOSTNAME_NAMES) {
        Some(n) => n,
        None => {
            return Err(Errcode::RngError);
        },
    };
    let adj = match choose_word(&HOSTNAME_ADJ) {
        Some(a) => a,
        None => {
            return Err(Errcode::RngError);
        },
    };
    let h = format_hostname(adj, name, num);
    proof {
        let a = choose|a: int| 0 <= a < HOSTNAME_ADJ@.len() && HOSTNAME_ADJ@[a] == adj;
        let n = choose|n: int| 0 <= n < HOSTNAME_NAMES@.len() && HOSTNAME_NAMES@[n] == name;
        assert(h@ == hostname_text(HOSTNAME_ADJ@[a]@, HOSTNAME_NAMES@[n]@, num));
    }
    Ok(h)
}

/// Gives the container's namespace the hostname `hostname`.
pub fn set_container_hostname(hostname: &String) -> (step: SysStep)
    ensures
        step.deep_view() == (StepView {
            op: OpView::SetHostname { name: hostname@ },
            on_error: Errcode::HostnameError(0),
        }),
{
    SysStep { op: SysOp::SetHostname { name: hostname.clone() }, on_error: Errcode::HostnameError(0) }
}

} // verus!
