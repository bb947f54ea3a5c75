use vstd::prelude::*;

verus! {

/// Relies on chrono::Local::now and the Display of DateTime: the local time,
/// as "YYYY-MM-DD hh:mm:ss.fraction offset".
#[verifier::external_body]
fn local_timestamp() -> (r: String) {
    chrono::Local::now().to_string()
}

/// Relies on String::push: `c` is appended at the end.
#[verifier::external_body]
fn push_char(s: &mut String, c: char)
    ensures
        final(s)@ == old(s)@.push(c),
{
    s.push(c)
}

/// The decimal digits of `n`, without sign or padding.
pub open spec fn decimal(n: nat) -> Seq<char>
    decreases n,
{
    if n < 10 {
        seq![digit_char(n)]
    } else {
        decimal(n / 10).push(digit_char(n % 10))
    }
}

pub open spec fn digit_char(d: nat) -> char {
    if d == 0 {
        '0'
    } else if d == 1 {
        '1'
    } else if d == 2 {
        '2'
    } else if d == 3 {
        '3'
    } else if d == 4 {
        '4'
    } else if d == 5 {
        '5'
    } else if d == 6 {
        '6'
    } else if d == 7 {
        '7'
    } else if d == 8 {
        '8'
    } else {
        '9'
    }
}

/// Relies on the Display of usize: decimal digits, no sign, no padding.
#[verifier::external_body]
fn usize_to_decimal(n: usize) -> (r: String)
    ensures
        r@ == decimal(n as nat),
{
    n.to_string()
}

/// A timestamp with '-' dropped, ':' turned into '_' and ' ' into '-'.
pub open spec fn compact_stamp(s: Seq<char>) -> Seq<char>
    decreases s.len(),
{
    if s.len() == 0 {
        s
    } else {
        let r = compact_stamp(s.drop_last());
        let c = s.last();
        if c == '-' {
            r
        } else if c == ':' {
            r.push('_')
        } else if c == ' ' {
            r.push('-')
        } else {
            r.push(c)
        }
    }
}

/// The longest a proposed file name gets.
pub const NAME_LEN: usize = 28;

/// "Screenshot_" and the compacted timestamp, cut to `NAME_LEN` characters.
pub open spec fn stamped_name(stamp: Seq<char>) -> Seq<char> {
    let full = "Screenshot_"@ + compact_stamp(stamp);
    if full.len() > NAME_LEN {
        full.take(NAME_LEN as int)
    } else {
        full
    }
}

/// The file name proposed for a screenshot taken at local time `stamp`.
pub fn name_from_timestamp(stamp: &str) -> (r: String)
    ensures
        r@ == stamped_name(stamp@),
{
    let mut full = String::from_str("Screenshot_");
    let ghost prefix = full@;
    let n = stamp.unicode_len();
    let mut i: usize = 0;
    while i < n
        invariant
            n == stamp@.len(),
            i <= n,
            full@ == prefix + compact_stamp(stamp@.take(i as int)),
        decreases n - i,
    {
        let c = stamp.get_char(i);
        assert(stamp@.take(i + 1).drop_last() =~= stamp@.take(i as int));
        assert(stamp@.take(i + 1).last() == c);
        if c == '-' {
        } else if c == ':' {
            push_char(&mut full, '_');
        } else if c == ' ' {
            push_char(&mut full, '-');
        } else {
            push_char(&mut full, c);
        }
        assert(full@ =~= prefix + compact_stamp(stamp@.take(i + 1)));
        i += 1;
    }
    assert(stamp@.take(n as int) =~= stamp@);
    if full.unicode_len() > NAME_LEN {
        String::from_str(full.as_str().substring_char(0, NAME_LEN))
    } else {
        full
    }
}

/// The file name proposed for a screenshot taken now.
pub fn build_default_name() -> (r: String)
    ensures
        exists|stamp: Seq<char>| r@ == stamped_name(stamp),
        r@.len() <= NAME_LEN,
{
    let stamp = local_timestamp();
    let r = name_from_timestamp(stamp.as_str());
    assert(r@ == stamped_name(stamp@));
    r
}

/// The name `base` numbered `n`: "base_n".
pub fn numbered_name(base: &str, n: usize) -> (r: String)
    ensures
        r@ == base@ + "_"@ + decimal(n as nat),
{
    let mut r = String::from_str(base);
    r.append("_");
    let digits = usize_to_decimal(n);
    r.append(digits.as_str());
    r
}

} // verus!
