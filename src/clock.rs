use vstd::prelude::*;

verus! {

/// The decimal digit character for `d`, where `d < 10`.
pub open spec fn digit_of(d: nat) -> char {
    (('0' as u8) + d) as char
}

/// `n` written with exactly two decimal digits, where `n < 100`.
pub open spec fn two_digits(n: nat) -> Seq<char> {
    seq![digit_of(n / 10), digit_of(n % 10)]
}

/// The text `MMm SSs` of the minute and second within the hour at which a
/// span of `secs` seconds ends.
pub open spec fn minutes_seconds_text_of(secs: nat) -> Seq<char> {
    two_digits((secs / 60) % 60) + seq!['m', ' '] + two_digits(secs % 60) + seq!['s']
}

/// The hour count `h` in decimal, with a leading zero below ten.
pub open spec fn hours_text_of(h: nat) -> Seq<char> {
    if h < 10 {
        two_digits(h)
    } else {
        decimal_of(h)
    }
}

/// The text `HHh MMm SSs` of a span of `secs` seconds: whole hours (at least
/// two digits), then the minutes and seconds left over.
pub open spec fn duration_text_of(secs: nat) -> Seq<char> {
    hours_text_of(secs / 3600) + seq!['h', ' '] + minutes_seconds_text_of(secs)
}

/// `n` in decimal, without leading zeros (`0` for zero).
pub open spec fn decimal_of(n: nat) -> Seq<char>
    decreases n,
{
    if n < 10 {
        seq![digit_of(n)]
    } else {
        decimal_of(n / 10) + seq![digit_of(n % 10)]
    }
}

/// Relies on chrono: a `DateTime<Utc>` made from the epoch plus `secs`
/// seconds (`secs` below one hour, so within the first day), formatted with
/// `%Mm %Ss`, gives its minute and second, each as two zero-padded digits.
#[verifier::external_body]
fn chrono_minutes_seconds_text(secs: u64) -> (r: String)
    requires
        secs < 3600,
    ensures
        r@ == minutes_seconds_text_of(secs as nat),
{
    let t = std::time::UNIX_EPOCH + std::time::Duration::from_secs(secs);
    let datetime: chrono::DateTime<chrono::Utc> = t.into();
    datetime.format("%Mm %Ss").to_string()
}

/// Renders a span of `secs` seconds as `HHh MMm SSs`: the whole hours, with
/// at least two digits and no upper bound, then minutes and seconds.
pub fn format_clock(secs: u64) -> (r: String)
    ensures
        r@ == duration_text_of(secs as nat),
{
    let hours: u64 = secs / 3600;
    let digits = decimal_text(hours);
    let mut r: String = if hours < 10 {
        "0".to_owned()
    } else {
        String::new()
    };
    r.append(digits.as_str());
    r.append("h ");
    let rest = chrono_minutes_seconds_text(secs % 3600);
    r.append(rest.as_str());
    proof {
        reveal_strlit("0");
        reveal_strlit("h ");
        if hours < 10 {
            assert(decimal_of(hours as nat) =~= seq![digit_of(hours as nat)]);
            assert(two_digits(hours as nat) =~= seq!['0'] + seq![digit_of(hours as nat)]);
        }
        assert(((secs % 3600) as nat / 60) % 60 == (secs as nat / 60) % 60) by (nonlinear_arith);
        assert((secs % 3600) as nat % 60 == secs as nat % 60) by (nonlinear_arith);
        assert(r@ =~= duration_text_of(secs as nat));
    }
    r
}

/// Relies on `u64`'s `ToString`: the decimal digits of `n`, with no sign and
/// no leading zeros.
#[verifier::external_body]
pub(crate) fn decimal_text(n: u64) -> (r: String)
    ensures
        r@ == decimal_of(n as nat),
{
    n.to_string()
}

/// The wall clock's reading, as std represents it.
#[verifier::external_type_specification]
#[verifier::external_body]
pub struct ExSystemTime(std::time::SystemTime);

/// Relies on `SystemTime::now`: it reads the wall clock and promises nothing
/// of the value.
pub assume_specification[ std::time::SystemTime::now ]() -> std::time::SystemTime;

/// Relies on `Duration::as_secs`: the whole seconds of a span; nothing more is
/// needed of it here.
pub assume_specification[ core::time::Duration::as_secs ](d: &core::time::Duration) -> u64;

/// Relies on `SystemTime::duration_since(UNIX_EPOCH)`: the span from the
/// epoch to `t`, or `None` where `t` lies before the epoch.
#[verifier::external_body]
fn since_epoch(t: &std::time::SystemTime) -> (r: Option<core::time::Duration>)
{
    t.duration_since(std::time::UNIX_EPOCH).ok()
}

/// Whole seconds since the epoch by the wall clock, or `None` where the clock
/// stands before the epoch.
pub(crate) fn current_time() -> (r: Option<u64>)
{
    let t = std::time::SystemTime::now();
    match since_epoch(&t) {
        Some(d) => Some(d.as_secs()),
        None => None,
    }
}

} // verus!
