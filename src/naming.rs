//! Names of the files a conversion touches, and the transcoder's command line.
use vstd::prelude::*;
use crate::format::Format;

verus! {

/// The character of a decimal digit `d < 10`.
pub open spec fn digit_char(d: nat) -> char {
    "0123456789"@[d as int]
}

/// `n` written in decimal, most significant digit first, without leading zeros.
pub open spec fn decimal(n: nat) -> Seq<char>
    decreases n,
{
    if n < 10 {
        seq![digit_char(n)]
    } else {
        decimal(n / 10).push(digit_char(n % 10))
    }
}

/// `m` written in decimal, with a leading `-` when it is negative.
pub open spec fn signed_decimal(m: int) -> Seq<char> {
    if m < 0 {
        seq!['-'] + decimal((-m) as nat)
    } else {
        decimal(m as nat)
    }
}

/// The temporary file an upload stamped with `millis` is stored under.
pub open spec fn upload_name_spec(millis: i64) -> Seq<char> {
    "upload_"@ + signed_decimal(millis as int)
}

/// The file the transcoder writes for a target format.
pub open spec fn output_path_spec(f: Format) -> Seq<char> {
    "converted."@ + f.name_spec()
}

/// The transcoder's arguments: overwrite the output, read `input`, write `output`.
pub open spec fn transcoder_args_spec(input: Seq<char>, output: Seq<char>) -> Seq<Seq<char>> {
    seq!["-y"@, "-i"@, input, output]
}

/// The one-character text of the digit `d`.
fn digit_text(d: u64) -> (r: &'static str)
    requires
        d < 10,
    ensures
        r@ == seq![digit_char(d as nat)],
{
    let digits = "0123456789";
    proof {
        reveal_strlit("0123456789");
    }
    let r = digits.substring_char(d as usize, d as usize + 1);
    assert(r@ =~= seq![digit_char(d as nat)]);
    r
}

/// `n` in decimal.
fn unsigned_text(n: u64) -> (r: String)
    ensures
        r@ == decimal(n as nat),
    decreases n,
{
    if n < 10 {
        String::from_str(digit_text(n))
    } else {
        let mut text = unsigned_text(n / 10);
        text.append(digit_text(n % 10));
        assert(text@ =~= decimal(n as nat));
        text
    }
}

/// `m` in decimal, with a leading `-` when it is negative.
fn decimal_text(m: i64) -> (r: String)
    ensures
        r@ == signed_decimal(m as int),
{
    if m < 0 {
        let magnitude: u64 = (0i128 - m as i128) as u64;
        let mut text = String::from_str("-");
        proof {
            reveal_strlit("-");
        }
        text.append(unsigned_text(magnitude).as_str());
        assert(text@ =~= signed_decimal(m as int));
        text
    } else {
        unsigned_text(m as u64)
    }
}

/// Relies on chrono's `From<SystemTime> for DateTime<Utc>` and
/// `DateTime::timestamp_millis`: the system clock in milliseconds since the
/// Unix epoch, negative for a clock set before it. Nothing is known of the
/// value.
#[verifier::external_body]
fn now_millis() -> (r: i64) {
    chrono::DateTime::<chrono::Utc>::from(std::time::SystemTime::now()).timestamp_millis()
}

/// The temporary file name for an upload stamped with `millis`.
pub fn upload_name(millis: i64) -> (r: String)
    ensures
        r@ == upload_name_spec(millis),
{
    let digits = decimal_text(millis);
    let mut name = String::from_str("upload_");
    name.append(digits.as_str());
    name
}

/// A temporary file name for an upload arriving now.
pub fn fresh_upload_name() -> (r: String)
    ensures
        exists|m: i64| r@ == upload_name_spec(m),
{
    let millis = now_millis();
    upload_name(millis)
}

/// The file the transcoder writes for `format`.
pub fn output_path(format: Format) -> (r: String)
    ensures
        r@ == output_path_spec(format),
{
    let mut path = String::from_str("converted.");
    path.append(format.name());
    path
}

/// The name of the transcoding executable, looked up on the search path.
pub fn transcoder_program() -> (r: &'static str)
    ensures
        r@ == "ffmpeg"@,
{
    "ffmpeg"
}

/// The transcoder's arguments for converting `input` into `output`.
pub fn transcoder_args(input: &str, output: &str) -> (r: Vec<String>)
    ensures
        r@.len() == 4,
        forall|i: int| 0 <= i < 4 ==> #[trigger] r@[i]@ == transcoder_args_spec(input@, output@)[i],
{
    let mut args: Vec<String> = Vec::new();
    args.push(String::from_str("-y"));
    args.push(String::from_str("-i"));
    args.push(String::from_str(input));
    args.push(String::from_str(output));
    args
}

proof fn decimal_not_empty(n: nat)
    ensures
        decimal(n).len() >= 1,
    decreases n,
{
    if n >= 10 {
        decimal_not_empty(n / 10);
    }
}

proof fn digit_chars_distinct(a: nat, b: nat)
    requires
        a < 10,
        b < 10,
        digit_char(a) == digit_char(b),
    ensures
        a == b,
{
    reveal_strlit("0123456789");
}

proof fn decimal_injective(a: nat, b: nat)
    requires
        decimal(a) == decimal(b),
    ensures
        a == b,
    decreases a,
{
    if a < 10 && b < 10 {
        assert(decimal(a) == seq![digit_char(a)]);
        assert(decimal(b) == seq![digit_char(b)]);
        assert(decimal(a)[0] == digit_char(a));
        assert(decimal(b)[0] == digit_char(b));
        digit_chars_distinct(a, b);
    } else if a < 10 {
        decimal_not_empty(b / 10);
        assert(decimal(b).len() >= 2);
    } else if b < 10 {
        decimal_not_empty(a / 10);
        assert(decimal(a).len() >= 2);
    } else {
        let da = decimal(a);
        let db = decimal(b);
        assert(da.drop_last() == decimal(a / 10));
        assert(db.drop_last() == decimal(b / 10));
        decimal_injective(a / 10, b / 10);
        assert(da.last() == db.last());
        digit_chars_distinct(a % 10, b % 10);
    }
}

proof fn decimal_starts_with_digit(n: nat)
    ensures
        decimal(n)[0] != '-',
    decreases n,
{
    reveal_strlit("0123456789");
    decimal_not_empty(n);
    if n >= 10 {
        decimal_starts_with_digit(n / 10);
        decimal_not_empty(n / 10);
        assert(decimal(n)[0] == decimal(n / 10)[0]);
    }
}

/// Uploads stamped with different times are stored under different names.
pub proof fn upload_names_distinct(a: i64, b: i64)
    requires
        a != b,
    ensures
        upload_name_spec(a) != upload_name_spec(b),
{
    let p = "upload_"@;
    if upload_name_spec(a) == upload_name_spec(b) {
        let sa = signed_decimal(a as int);
        let sb = signed_decimal(b as int);
        assert(upload_name_spec(a).subrange(p.len() as int, upload_name_spec(a).len() as int) == sa);
        assert(upload_name_spec(b).subrange(p.len() as int, upload_name_spec(b).len() as int) == sb);
        assert(sa == sb);
        if a < 0 && b < 0 {
            assert(sa.subrange(1, sa.len() as int) == decimal((-a) as nat));
            assert(sb.subrange(1, sb.len() as int) == decimal((-b) as nat));
            decimal_injective((-a) as nat, (-b) as nat);
        } else if a < 0 {
            decimal_starts_with_digit(b as nat);
            assert(sa[0] == '-');
        } else if b < 0 {
            decimal_starts_with_digit(a as nat);
            assert(sb[0] == '-');
        } else {
            decimal_injective(a as nat, b as nat);
        }
    }
}

} // verus!
