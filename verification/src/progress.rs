//! Parsing of the downloader's progress lines.
//!
//! The downloader reports progress on standard output in lines such as
//! `[download]  45.2% of 10.00MiB at 1.20MiB/s ETA 00:05`.  Only lines
//! beginning with the `[download]` marker are treated as progress; the
//! percent, total size, speed, estimated time and a coarse status are
//! extracted heuristically.  The whole extraction is a pure function of the
//! line, specified by [`spec_parse_progress`].

use vstd::prelude::*;

use crate::text::{
    all_digits, chars_eq, chars_string, contains, dec_value, find, first_token, is_dec_digit,
    lemma_dec_value_lower, lemma_dec_value_strip_zeros, lemma_pow10_mono, pow10, push_all, rfind,
    spec_contains, spec_find, spec_first_token, spec_lower, spec_rfind, spec_starts_with,
    spec_strip_all, spec_strip_zeros, spec_trim, spec_trim_end_char, spec_trim_start, starts_with,
    str_chars, strip_prefix_all, subvec, to_ascii_lowercase, trim, trim_end_char, trim_start,
};

verus! {

/// The marker that opens every progress line.
pub open spec fn progress_marker() -> Seq<char> {
    "[download]"@
}

/// `s` without a single leading `+` or `-` sign.
pub open spec fn numeral_body(s: Seq<char>) -> Seq<char> {
    if s.len() > 0 && (s[0] == '+' || s[0] == '-') {
        s.subrange(1, s.len() as int)
    } else {
        s
    }
}

/// The position of the first exponent marker `e` or `E` in a numeral's
/// body, if any.
pub open spec fn spec_exp_index(body: Seq<char>) -> Option<int> {
    match (spec_find(body, seq!['e']), spec_find(body, seq!['E'])) {
        (Some(a), Some(b)) => Some(
            if a <= b {
                a
            } else {
                b
            },
        ),
        (Some(a), None) => Some(a),
        (None, Some(b)) => Some(b),
        (None, None) => None,
    }
}

/// The mantissa of a numeral's body: the part before the exponent marker,
/// or all of it when there is none.
pub open spec fn spec_mantissa(body: Seq<char>) -> Seq<char> {
    match spec_exp_index(body) {
        Some(i) => body.subrange(0, i),
        None => body,
    }
}

/// The exponent of a numeral's body: the part after the marker, or empty
/// when there is none.
pub open spec fn spec_exp_part(body: Seq<char>) -> Seq<char> {
    match spec_exp_index(body) {
        Some(i) => body.subrange(i + 1, body.len() as int),
        None => Seq::empty(),
    }
}

/// A plain decimal mantissa: digits with at most one decimal point and at
/// least one digit.
pub open spec fn is_plain_decimal(m: Seq<char>) -> bool {
    match spec_find(m, seq!['.']) {
        Some(k) => all_digits(m.subrange(0, k)) && all_digits(m.subrange(k + 1, m.len() as int))
            && m.len() >= 2,
        None => m.len() > 0 && all_digits(m),
    }
}

/// A well-formed exponent: an optional sign, then at least one digit.
pub open spec fn is_exp_body(e: Seq<char>) -> bool {
    numeral_body(e).len() > 0 && all_digits(numeral_body(e))
}

/// A number: a plain decimal mantissa, optionally followed by an exponent
/// marker and a well-formed exponent.
pub open spec fn is_number(body: Seq<char>) -> bool {
    is_plain_decimal(spec_mantissa(body)) && (spec_exp_index(body) is Some ==> is_exp_body(
        spec_exp_part(body),
    ))
}

/// One of the special floating-point words, in any letter case: `inf`,
/// `infinity` or `nan`.
pub open spec fn is_special_word(body: Seq<char>) -> bool {
    spec_lower(body) == "inf"@ || spec_lower(body) == "infinity"@ || spec_lower(body) == "nan"@
}

/// `s` parses as a floating-point number, by the grammar `f64` parsing
/// accepts: an optional sign, then `inf`, `infinity` or `nan` in any
/// letter case, or digits with at most one decimal point and at least one
/// digit, optionally followed by `e` or `E`, an optional sign and digits.
/// A line whose percent text is not of this form is not progress.
pub open spec fn is_percent_numeral(s: Seq<char>) -> bool {
    is_special_word(numeral_body(s)) || is_number(numeral_body(s))
}

/// The mathematical value of an exponent part: an optionally signed digit
/// string, zero when empty.
pub open spec fn spec_exp_value(e: Seq<char>) -> int {
    if e.len() > 0 && e[0] == '-' {
        -dec_value(numeral_body(e))
    } else {
        dec_value(numeral_body(e))
    }
}

/// The digits before the decimal point of a mantissa.
pub open spec fn mantissa_int_digits(m: Seq<char>) -> Seq<char> {
    match spec_find(m, seq!['.']) {
        Some(k) => m.subrange(0, k),
        None => m,
    }
}

/// The digits after the decimal point of a mantissa.
pub open spec fn mantissa_frac_digits(m: Seq<char>) -> Seq<char> {
    match spec_find(m, seq!['.']) {
        Some(k) => m.subrange(k + 1, m.len() as int),
        None => Seq::empty(),
    }
}

/// The numeral `s` denotes a value of at least one hundred.  A negative
/// numeral or `nan` never does and a positive infinity always does; a
/// number does exactly when its most significant digit sits at or above
/// the hundreds place — with `I` integer digits, exponent `x` and `k`
/// leading zeros among its digits, when `I + x - k >= 3`.
pub open spec fn numeral_ge_100(s: Seq<char>) -> bool {
    let body = numeral_body(s);
    if s.len() > 0 && s[0] == '-' {
        false
    } else if spec_lower(body) == "nan"@ {
        false
    } else if spec_lower(body) == "inf"@ || spec_lower(body) == "infinity"@ {
        true
    } else {
        let m = spec_mantissa(body);
        let digits = mantissa_int_digits(m) + mantissa_frac_digits(m);
        let sig = spec_strip_zeros(digits);
        sig.len() > 0 && mantissa_int_digits(m).len() + spec_exp_value(spec_exp_part(body)) - (
        digits.len() - sig.len()) >= 3
    }
}

/// The fields extracted from one recognized progress line.
pub ghost struct ProgressFields {
    /// The percent as printed, with its `%` sign, e.g. `45.2%`.
    pub percent: Seq<char>,
    /// The estimated remaining time, or the elapsed time of a finished line.
    pub eta: Option<Seq<char>>,
    /// The reported transfer rate.
    pub speed: Option<Seq<char>>,
    /// The reported total size.
    pub total: Option<Seq<char>>,
    /// Finished or downloading, when the line says which.
    pub status: Option<ProgressStatus>,
    /// The raw source line, exactly as it was read.
    pub raw: Seq<char>,
}

/// The ETA field: the trailing text after the last `"ETA "`, or failing
/// that after the last `" in "`.
pub open spec fn spec_eta(rest: Seq<char>) -> Option<Seq<char>> {
    match spec_rfind(rest, "ETA "@) {
        Some(i) => {
            let value = spec_trim(rest.subrange(i + 4, rest.len() as int));
            if value.len() > 0 {
                Some(value)
            } else {
                None
            }
        },
        None => match spec_rfind(rest, " in "@) {
            Some(i) => {
                let value = spec_trim(rest.subrange(i + 4, rest.len() as int));
                if value.len() > 0 {
                    Some(value)
                } else {
                    None
                }
            },
            None => None,
        },
    }
}

/// The speed field: the first whitespace-delimited token after the first
/// `" at "`, with trailing commas removed.
pub open spec fn spec_speed(rest: Seq<char>) -> Option<Seq<char>> {
    match spec_find(rest, " at "@) {
        Some(i) => {
            let after = rest.subrange(i + 4, rest.len() as int);
            let cleaned = spec_trim_end_char(spec_trim(spec_first_token(after)), ',');
            if cleaned.len() > 0 {
                Some(cleaned)
            } else {
                None
            }
        },
        None => None,
    }
}

/// Where the total-size text ends: at the earliest of `" at "`, `" ETA "`
/// and `" in "`, or at the end when none occurs.
pub open spec fn spec_total_end(after_of: Seq<char>) -> int {
    let e0 = after_of.len() as int;
    let e1 = match spec_find(after_of, " at "@) {
        Some(i) => if i < e0 {
            i
        } else {
            e0
        },
        None => e0,
    };
    let e2 = match spec_find(after_of, " ETA "@) {
        Some(i) => if i < e1 {
            i
        } else {
            e1
        },
        None => e1,
    };
    match spec_find(after_of, " in "@) {
        Some(i) => if i < e2 {
            i
        } else {
            e2
        },
        None => e2,
    }
}

/// The total-size field: the text after a leading `"of "`, cut at
/// [`spec_total_end`], trimmed, with trailing commas removed.
pub open spec fn spec_total(rest: Seq<char>) -> Option<Seq<char>> {
    let ts = spec_trim_start(rest);
    if spec_starts_with(ts, "of "@) {
        let after_of = ts.subrange(3, ts.len() as int);
        let end = spec_total_end(after_of);
        let candidate = spec_trim_end_char(spec_trim(after_of.subrange(0, end)), ',');
        if candidate.len() > 0 {
            Some(candidate)
        } else {
            None
        }
    } else {
        None
    }
}

/// The status field: finished when the line mentions `" in "` or the
/// percent has reached one hundred, downloading when it mentions `ETA` or
/// says anything more at all, otherwise unset.
pub open spec fn spec_status(rest: Seq<char>, percent_str: Seq<char>) -> Option<ProgressStatus> {
    if spec_contains(rest, " in "@) || numeral_ge_100(percent_str) {
        Some(ProgressStatus::Finished)
    } else if spec_contains(rest, "ETA"@) || rest.len() > 0 {
        Some(ProgressStatus::Downloading)
    } else {
        None
    }
}

/// The progress fields of `line`, or `None` when `line` is not a
/// recognizable progress line.
pub open spec fn spec_parse_progress(line: Seq<char>) -> Option<ProgressFields> {
    if !spec_starts_with(line, progress_marker()) {
        None
    } else {
        let trimmed = spec_trim(spec_strip_all(line, progress_marker()));
        match spec_find(trimmed, seq!['%']) {
            Some(p) => {
                let percent_str = spec_trim(trimmed.subrange(0, p));
                let rest = spec_trim(trimmed.subrange(p + 1, trimmed.len() as int));
                if percent_str.len() == 0 || !is_percent_numeral(percent_str) {
                    None
                } else {
                    Some(
                        ProgressFields {
                            percent: percent_str + seq!['%'],
                            eta: spec_eta(rest),
                            speed: spec_speed(rest),
                            total: spec_total(rest),
                            status: spec_status(rest, percent_str),
                            raw: line,
                        },
                    )
                }
            },
            None => None,
        }
    }
}

/// A line that does not open with the progress marker is never progress,
/// whatever else it contains.
pub proof fn lemma_non_marker_line_is_not_progress(line: Seq<char>)
    requires
        !spec_starts_with(line, progress_marker()),
    ensures
        spec_parse_progress(line) is None,
{
}

/// Whether a progress line reports an ongoing or a completed download.
#[derive(Debug, Clone, Copy, PartialEq, Eq, Structural)]
pub enum ProgressStatus {
    Downloading,
    Finished,
}

impl ProgressStatus {
    /// The label used for this status in outward-facing events.
    pub fn label(&self) -> (r: String)
        ensures
            *self == ProgressStatus::Downloading ==> r@ == "downloading"@,
            *self == ProgressStatus::Finished ==> r@ == "finished"@,
    {
        match self {
            ProgressStatus::Downloading => String::from_str("downloading"),
            ProgressStatus::Finished => String::from_str("finished"),
        }
    }
}

/// One structured progress report, derived from a single recognized line.
#[derive(Debug, Clone)]
pub struct ProgressEvent {
    /// The percent as printed, with its `%` sign.
    pub percent_text: String,
    /// Estimated remaining time, or elapsed time on a finished line.
    pub eta: Option<String>,
    /// Reported transfer rate.
    pub speed: Option<String>,
    /// Reported total size.
    pub total: Option<String>,
    /// Finished or downloading, when the line says which.
    pub status: Option<ProgressStatus>,
    /// The raw source line, exactly as it was read.
    pub raw: String,
}

impl View for ProgressEvent {
    type V = ProgressFields;

    open spec fn view(&self) -> ProgressFields {
        ProgressFields {
            percent: self.percent_text@,
            eta: self.eta.deep_view(),
            speed: self.speed.deep_view(),
            total: self.total.deep_view(),
            status: self.status,
            raw: self.raw@,
        }
    }
}

/// Every character of `v` is a decimal digit, decided executably.
fn all_digits_exec(v: &Vec<char>) -> (r: bool)
    ensures
        r == all_digits(v@),
{
    let mut i: usize = 0;
    while i < v.len()
        invariant
            i <= v@.len(),
            forall|k: int| 0 <= k < i ==> is_dec_digit(v@[k]),
        decreases v@.len() - i,
    {
        let c = v[i];
        if !('0' <= c && c <= '9') {
            return false;
        }
        i = i + 1;
    }
    true
}

/// Decides [`is_plain_decimal`].
fn is_plain_decimal_exec(m: &Vec<char>) -> (r: bool)
    ensures
        r == is_plain_decimal(m@),
{
    let mut dot: Vec<char> = Vec::new();
    dot.push('.');
    proof {
        assert(dot@ =~= seq!['.']);
    }
    let mlen: usize = m.len();
    match find(m, &dot) {
        Some(k) => {
            let before = subvec(m, 0, k);
            let after = subvec(m, k + 1, mlen);
            all_digits_exec(&before) && all_digits_exec(&after) && m.len() >= 2
        },
        None => m.len() > 0 && all_digits_exec(m),
    }
}

/// Finds the first exponent marker in a numeral's body.
fn exp_marker_index(body: &Vec<char>) -> (r: Option<usize>)
    ensures
        match r {
            Some(i) => spec_exp_index(body@) == Some(i as int) && i < body@.len(),
            None => spec_exp_index(body@) is None,
        },
{
    let mut low: Vec<char> = Vec::new();
    low.push('e');
    let mut up: Vec<char> = Vec::new();
    up.push('E');
    proof {
        assert(low@ =~= seq!['e']);
        assert(up@ =~= seq!['E']);
    }
    match (find(body, &low), find(body, &up)) {
        (Some(a), Some(b)) => if a <= b {
            Some(a)
        } else {
            Some(b)
        },
        (Some(a), None) => Some(a),
        (None, Some(b)) => Some(b),
        (None, None) => None,
    }
}

/// Counts the leading zero digits of `v`: what remains after them is
/// [`spec_strip_zeros`] of the whole.
fn strip_zero_count(v: &Vec<char>) -> (r: usize)
    ensures
        r <= v@.len(),
        spec_strip_zeros(v@) == v@.subrange(r as int, v@.len() as int),
        r < v@.len() ==> v@[r as int] != '0',
{
    let mut i: usize = 0;
    proof {
        assert(v@.subrange(0, v@.len() as int) =~= v@);
    }
    while i < v.len() && v[i] == '0'
        invariant
            i <= v@.len(),
            spec_strip_zeros(v@) == spec_strip_zeros(v@.subrange(i as int, v@.len() as int)),
        decreases v@.len() - i,
    {
        proof {
            assert(v@.subrange(i as int, v@.len() as int).subrange(1, v@.len() - i as int)
                =~= v@.subrange(i + 1, v@.len() as int));
        }
        i = i + 1;
    }
    proof {
        let tail = v@.subrange(i as int, v@.len() as int);
        if i < v@.len() {
            assert(tail[0] != '0');
        }
        assert(spec_strip_zeros(tail) == tail);
    }
    i
}

/// Decides [`is_percent_numeral`].
fn is_percent_numeral_exec(v: &Vec<char>) -> (r: bool)
    ensures
        r == is_percent_numeral(v@),
{
    let body = if v.len() > 0 && (v[0] == '+' || v[0] == '-') {
        subvec(v, 1, v.len())
    } else {
        subvec(v, 0, v.len())
    };
    proof {
        assert(body@ =~= numeral_body(v@));
    }
    let lowered = to_ascii_lowercase(&body);
    if chars_eq(&lowered, &str_chars("inf")) || chars_eq(&lowered, &str_chars("infinity"))
        || chars_eq(&lowered, &str_chars("nan")) {
        return true;
    }
    let blen: usize = body.len();
    match exp_marker_index(&body) {
        Some(i) => {
            let mantissa = subvec(&body, 0, i);
            let exp = subvec(&body, i + 1, blen);
            proof {
                assert(mantissa@ =~= spec_mantissa(body@));
                assert(exp@ =~= spec_exp_part(body@));
            }
            if !is_plain_decimal_exec(&mantissa) {
                return false;
            }
            let elen: usize = exp.len();
            let ed = if exp.len() > 0 && (exp[0] == '+' || exp[0] == '-') {
                subvec(&exp, 1, elen)
            } else {
                subvec(&exp, 0, elen)
            };
            proof {
                assert(ed@ =~= numeral_body(exp@));
            }
            ed.len() > 0 && all_digits_exec(&ed)
        },
        None => is_plain_decimal_exec(&body),
    }
}

proof fn lemma_pow10_36()
    ensures
        pow10(36) == 1000000000000000000000000000000000000int,
{
    reveal_with_fuel(pow10, 38);
}

/// Decides [`numeral_ge_100`] for a valid percent numeral.
#[verifier::rlimit(100)]
#[verifier::spinoff_prover]
fn numeral_ge_100_exec(v: &Vec<char>) -> (r: bool)
    requires
        is_percent_numeral(v@),
    ensures
        r == numeral_ge_100(v@),
{
    if v.len() > 0 && v[0] == '-' {
        return false;
    }
    let body = if v.len() > 0 && v[0] == '+' {
        subvec(v, 1, v.len())
    } else {
        subvec(v, 0, v.len())
    };
    proof {
        assert(body@ =~= numeral_body(v@));
    }
    let lowered = to_ascii_lowercase(&body);
    if chars_eq(&lowered, &str_chars("nan")) {
        return false;
    }
    if chars_eq(&lowered, &str_chars("inf")) || chars_eq(&lowered, &str_chars("infinity")) {
        return true;
    }
    proof {
        assert(is_number(body@));
    }
    let blen: usize = body.len();
    let (mantissa, exp) = match exp_marker_index(&body) {
        Some(i) => (subvec(&body, 0, i), subvec(&body, i + 1, blen)),
        None => (subvec(&body, 0, blen), Vec::<char>::new()),
    };
    proof {
        assert(mantissa@ =~= spec_mantissa(body@));
        assert(exp@ =~= spec_exp_part(body@));
    }
    let mut dot: Vec<char> = Vec::new();
    dot.push('.');
    proof {
        assert(dot@ =~= seq!['.']);
    }
    let mlen: usize = mantissa.len();
    let (int_digits, frac_digits) = match find(&mantissa, &dot) {
        Some(k) => (subvec(&mantissa, 0, k), subvec(&mantissa, k + 1, mlen)),
        None => (subvec(&mantissa, 0, mlen), Vec::<char>::new()),
    };
    proof {
        assert(int_digits@ =~= mantissa_int_digits(mantissa@));
        assert(frac_digits@ =~= mantissa_frac_digits(mantissa@));
    }
    let mut digits = subvec(&int_digits, 0, int_digits.len());
    push_all(&mut digits, &frac_digits);
    proof {
        assert(digits@ == mantissa_int_digits(mantissa@) + mantissa_frac_digits(mantissa@));
    }
    let zeros = strip_zero_count(&digits);
    let il: usize = int_digits.len();
    if digits.len() - zeros == 0 {
        return false;
    }
    let neg_exp = exp.len() > 0 && exp[0] == '-';
    let elen: usize = exp.len();
    let ed = if exp.len() > 0 && (exp[0] == '+' || exp[0] == '-') {
        subvec(&exp, 1, elen)
    } else {
        subvec(&exp, 0, elen)
    };
    proof {
        assert(ed@ =~= numeral_body(exp@));
        assert(all_digits(ed@));
    }
    let ez = strip_zero_count(&ed);
    let sd = subvec(&ed, ez, ed.len());
    let ghost expv = spec_exp_value(spec_exp_part(body@));
    proof {
        assert(sd@ == spec_strip_zeros(ed@));
        lemma_dec_value_strip_zeros(ed@);
        assert(all_digits(sd@));
        assert(expv == if neg_exp {
            -dec_value(sd@)
        } else {
            dec_value(sd@)
        });
    }
    let ghost rhs_int = 3 - (il as int) + (zeros as int);
    if sd.len() > 36 {
        proof {
            assert(sd@[0] != '0');
            lemma_dec_value_lower(sd@);
            lemma_pow10_mono(36, (sd@.len() - 1) as nat);
            lemma_pow10_36();
            assert(usize::MAX + 3 < pow10(36));
            assert(dec_value(sd@) >= pow10(36));
            assert(rhs_int <= usize::MAX + 3);
            assert(rhs_int >= 3 - usize::MAX);
        }
        return !neg_exp;
    }
    let mut acc: i128 = 0;
    let mut j: usize = 0;
    proof {
        lemma_pow10_36();
        assert(sd@.subrange(0, 0) =~= Seq::<char>::empty());
    }
    while j < sd.len()
        invariant
            j <= sd@.len() <= 36,
            all_digits(sd@),
            acc == dec_value(sd@.subrange(0, j as int)),
            0 <= acc < pow10(j as nat),
            pow10(36) == 1000000000000000000000000000000000000int,
        decreases sd@.len() - j,
    {
        let c = sd[j];
        proof {
            assert(is_dec_digit(sd@[j as int]));
            lemma_pow10_mono((j + 1) as nat, 36);
            assert(pow10((j + 1) as nat) == 10 * pow10(j as nat));
            assert(sd@.subrange(0, j + 1).subrange(0, j as int) =~= sd@.subrange(0, j as int));
            assert(sd@.subrange(0, j + 1)[j as int] == sd@[j as int]);
        }
        acc = acc * 10 + (((c as u8) - 48) as i128);
        j = j + 1;
    }
    proof {
        assert(sd@.subrange(0, sd@.len() as int) =~= sd@);
    }
    let expv_exec: i128 = if neg_exp {
        -acc
    } else {
        acc
    };
    let rhs: i128 = 3 - (il as i128) + (zeros as i128);
    proof {
        assert(expv == expv_exec as int);
        assert(rhs == rhs_int);
    }
    expv_exec >= rhs
}

/// Extracts the ETA field of `rest`, as [`spec_eta`] defines it.
fn extract_eta(rest: &Vec<char>) -> (r: Option<String>)
    ensures
        r.deep_view() == spec_eta(rest@),
{
    proof {
        reveal_strlit("ETA ");
        reveal_strlit(" in ");
    }
    let n: usize = rest.len();
    let eta_pat = str_chars("ETA ");
    let in_pat = str_chars(" in ");
    let idx = match rfind(rest, &eta_pat) {
        Some(i) => Some(i),
        None => rfind(rest, &in_pat),
    };
    match idx {
        Some(i) => {
            let tail = subvec(rest, i + 4, n);
            let value = trim(&tail);
            if value.len() > 0 {
                Some(chars_string(&value))
            } else {
                None
            }
        },
        None => None,
    }
}

/// Extracts the speed field of `rest`, as [`spec_speed`] defines it.
fn extract_speed(rest: &Vec<char>) -> (r: Option<String>)
    ensures
        r.deep_view() == spec_speed(rest@),
{
    proof {
        reveal_strlit(" at ");
    }
    let n: usize = rest.len();
    let at_pat = str_chars(" at ");
    match find(rest, &at_pat) {
        Some(i) => {
            let after = subvec(rest, i + 4, n);
            let token = first_token(&after);
            let trimmed = trim(&token);
            let cleaned = trim_end_char(&trimmed, ',');
            if cleaned.len() > 0 {
                Some(chars_string(&cleaned))
            } else {
                None
            }
        },
        None => None,
    }
}

/// Extracts the total-size field of `rest`, as [`spec_total`] defines it.
fn extract_total(rest: &Vec<char>) -> (r: Option<String>)
    ensures
        r.deep_view() == spec_total(rest@),
{
    proof {
        reveal_strlit("of ");
        reveal_strlit(" at ");
        reveal_strlit(" ETA ");
        reveal_strlit(" in ");
    }
    let ts = trim_start(rest);
    let of_pat = str_chars("of ");
    if !starts_with(&ts, &of_pat) {
        return None;
    }
    let after_of = subvec(&ts, 3, ts.len());
    proof {
        assert(after_of@ =~= spec_trim_start(rest@).subrange(
            3,
            spec_trim_start(rest@).len() as int,
        ));
    }
    let at_pat = str_chars(" at ");
    let eta_pat = str_chars(" ETA ");
    let in_pat = str_chars(" in ");
    let mut end: usize = after_of.len();
    match find(&after_of, &at_pat) {
        Some(i) => {
            if i < end {
                end = i;
            }
        },
        None => {},
    }
    match find(&after_of, &eta_pat) {
        Some(i) => {
            if i < end {
                end = i;
            }
        },
        None => {},
    }
    match find(&after_of, &in_pat) {
        Some(i) => {
            if i < end {
                end = i;
            }
        },
        None => {},
    }
    proof {
        assert(end as int == spec_total_end(after_of@));
    }
    let cut = subvec(&after_of, 0, end);
    let trimmed = trim(&cut);
    let candidate = trim_end_char(&trimmed, ',');
    if candidate.len() > 0 {
        Some(chars_string(&candidate))
    } else {
        None
    }
}

/// Parses one output line of the downloader.  Returns the structured
/// progress event for a recognized progress line and `None` for every other
/// line, exactly as [`spec_parse_progress`] describes.
pub fn parse_progress_line(line: &str) -> (r: Option<ProgressEvent>)
    ensures
        match r {
            Some(ev) => spec_parse_progress(line@) == Some(ev@),
            None => spec_parse_progress(line@) is None,
        },
{
    let chars = str_chars(line);
    let marker = str_chars("[download]");
    if !starts_with(&chars, &marker) {
        return None;
    }
    let stripped = strip_prefix_all(&chars, &marker);
    let trimmed = trim(&stripped);
    let mut percent_sign: Vec<char> = Vec::new();
    percent_sign.push('%');
    proof {
        assert(percent_sign@ =~= seq!['%']);
    }
    let p = match find(&trimmed, &percent_sign) {
        Some(p) => p,
        None => {
            return None;
        },
    };
    proof {
        crate::text::lemma_find_characterization(trimmed@, seq!['%']);
    }
    let tlen: usize = trimmed.len();
    let percent_part = subvec(&trimmed, 0, p);
    let rest_part = subvec(&trimmed, p + 1, tlen);
    let percent_str = trim(&percent_part);
    if percent_str.len() == 0 {
        return None;
    }
    if !is_percent_numeral_exec(&percent_str) {
        return None;
    }
    let rest = trim(&rest_part);
    let mut percent_text = subvec(&percent_str, 0, percent_str.len());
    percent_text.push('%');
    proof {
        assert(percent_text@ =~= spec_trim(trimmed@.subrange(0, p as int)) + seq!['%']);
    }
    let eta = extract_eta(&rest);
    let speed = extract_speed(&rest);
    let total = extract_total(&rest);
    let status = if contains(&rest, &str_chars(" in ")) || numeral_ge_100_exec(&percent_str) {
        Some(ProgressStatus::Finished)
    } else if contains(&rest, &str_chars("ETA")) || rest.len() > 0 {
        Some(ProgressStatus::Downloading)
    } else {
        None
    };
    Some(
        ProgressEvent {
            percent_text: chars_string(&percent_text),
            eta,
            speed,
            total,
            status,
            raw: chars_string(&chars),
        },
    )
}

} // verus!
