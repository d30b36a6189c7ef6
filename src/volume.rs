use vstd::prelude::*;
use vstd::slice::slice_subrange;

verus! {

/// Highest volume level, scaled by `LEVEL_SCALE`: one and a half, for overdrive.
pub const VOLUME_MAX: u32 = 15000;

/// The sound server whose command-line tool sets and reads the volume.
#[derive(Clone, Copy, Debug, PartialEq, Eq, Structural)]
pub enum AudioBackend {
    PipeWire,
    PulseAudio,
}

/// The output volume, driven through the sound server's command-line tool.
pub struct Volume {
    pub backend: AudioBackend,
}

impl Volume {
    /// The level that is written out for a requested one: at most `VOLUME_MAX`.
    pub fn clamp_level(level: u32) -> (r: u32)
        ensures
            r == if level > VOLUME_MAX { VOLUME_MAX } else { level },
    {
        if level > VOLUME_MAX {
            VOLUME_MAX
        } else {
            level
        }
    }
}


/// ASCII whitespace.
pub open spec fn is_space(b: u8) -> bool {
    b == 32 || 9 <= b <= 13
}

/// The first index from `i` on, before `end`, that is not whitespace (else `end`).
pub open spec fn skip_space(s: Seq<u8>, i: int, end: int) -> int
    decreases end - i,
{
    if i >= end {
        end
    } else if is_space(s[i]) {
        skip_space(s, i + 1, end)
    } else {
        i
    }
}

/// The first index from `i` on, before `end`, that is whitespace (else `end`).
pub open spec fn word_end(s: Seq<u8>, i: int, end: int) -> int
    decreases end - i,
{
    if i >= end {
        end
    } else if is_space(s[i]) {
        i
    } else {
        word_end(s, i + 1, end)
    }
}

/// The first index from `i` on, before `end`, that holds byte `b` (else `end`).
pub open spec fn find_byte(s: Seq<u8>, b: u8, i: int, end: int) -> int
    decreases end - i,
{
    if i >= end {
        end
    } else if s[i] == b {
        i
    } else {
        find_byte(s, b, i + 1, end)
    }
}

/// The end of `s[lo..hi]` once trailing whitespace is cut off.
pub open spec fn trim_end(s: Seq<u8>, lo: int, hi: int) -> int
    decreases hi - lo,
{
    if hi <= lo {
        lo
    } else if is_space(s[hi - 1]) {
        trim_end(s, lo, hi - 1)
    } else {
        hi
    }
}

/// The second whitespace-separated word of `s`, if there is one.
pub open spec fn second_word(s: Seq<u8>) -> Option<Seq<u8>> {
    let n = s.len() as int;
    let a = skip_space(s, 0, n);
    let b = word_end(s, a, n);
    let c = skip_space(s, b, n);
    if c < n {
        Some(s.subrange(c, word_end(s, c, n)))
    } else {
        None
    }
}

/// The percentage between the first and second `/` of `s` (or the end), with
/// surrounding whitespace and the `%` sign removed, if it ends in `%`.
pub open spec fn percent_field(s: Seq<u8>) -> Option<Seq<u8>> {
    let n = s.len() as int;
    let p = find_byte(s, 47, 0, n);
    if p >= n {
        None
    } else {
        let q = find_byte(s, 47, p + 1, n);
        let lo = skip_space(s, p + 1, q);
        let hi = trim_end(s, lo, q);
        if hi > lo && s[hi - 1] == 37 {
            let lo2 = skip_space(s, lo, hi - 1);
            Some(s.subrange(lo2, trim_end(s, lo2, hi - 1)))
        } else {
            None
        }
    }
}

/// A level that fits a `u32`, as `parse_level` gives it.
pub open spec fn fitting(v: Option<int>) -> Option<u32> {
    match v {
        Some(x) => if 0 <= x <= u32::MAX {
            Some(x as u32)
        } else {
            None
        },
        None => None,
    }
}

fn skip_space_at(s: &[u8], i: usize, end: usize) -> (r: usize)
    requires
        i <= end <= s@.len(),
    ensures
        r == skip_space(s@, i as int, end as int),
        i <= r <= end,
{
    let mut k = i;
    while k < end && (s[k] == 32 || (9 <= s[k] && s[k] <= 13))
        invariant
            i <= k <= end <= s@.len(),
            skip_space(s@, i as int, end as int) == skip_space(s@, k as int, end as int),
        decreases end - k,
    {
        k = k + 1;
    }
    k
}

fn word_end_at(s: &[u8], i: usize, end: usize) -> (r: usize)
    requires
        i <= end <= s@.len(),
    ensures
        r == word_end(s@, i as int, end as int),
        i <= r <= end,
{
    let mut k = i;
    while k < end && !(s[k] == 32 || (9 <= s[k] && s[k] <= 13))
        invariant
            i <= k <= end <= s@.len(),
            word_end(s@, i as int, end as int) == word_end(s@, k as int, end as int),
        decreases end - k,
    {
        k = k + 1;
    }
    k
}

fn find_byte_at(s: &[u8], b: u8, i: usize, end: usize) -> (r: usize)
    requires
        i <= end <= s@.len(),
    ensures
        r == find_byte(s@, b, i as int, end as int),
        i <= r <= end,
{
    let mut k = i;
    while k < end && s[k] != b
        invariant
            i <= k <= end <= s@.len(),
            find_byte(s@, b, i as int, end as int) == find_byte(s@, b, k as int, end as int),
        decreases end - k,
    {
        k = k + 1;
    }
    k
}

fn trim_end_at(s: &[u8], lo: usize, hi: usize) -> (r: usize)
    requires
        lo <= hi <= s@.len(),
    ensures
        r == trim_end(s@, lo as int, hi as int),
        lo <= r <= hi,
{
    let mut k = hi;
    while k > lo && (s[k - 1] == 32 || (9 <= s[k - 1] && s[k - 1] <= 13))
        invariant
            lo <= k <= hi <= s@.len(),
            trim_end(s@, lo as int, hi as int) == trim_end(s@, lo as int, k as int),
        decreases k - lo,
    {
        k = k - 1;
    }
    k
}

fn parse_fitting(s: &[u8]) -> (r: Option<u32>)
    ensures
        r == fitting(decimal_level(s@)),
{
    let r = parse_level(s);
    proof {
        match decimal_level(s@) {
            Some(v) => {
                if r is None {
                    assert(v > u32::MAX);
                }
            },
            None => {},
        }
    }
    r
}

/// The level in the output of PipeWire's `wpctl get-volume` ("Volume: 0.45"): its second
/// word, read as a decimal number.
pub fn wpctl_level(out: &[u8]) -> (r: Option<u32>)
    ensures
        r == match second_word(out@) {
            Some(w) => fitting(decimal_level(w)),
            None => None,
        },
{
    let n = out.len();
    let a = skip_space_at(out, 0, n);
    let b = word_end_at(out, a, n);
    let c = skip_space_at(out, b, n);
    if c < n {
        let d = word_end_at(out, c, n);
        parse_fitting(slice_subrange(out, c, d))
    } else {
        None
    }
}

/// The level in the output of PulseAudio's `pactl get-sink-volume`
/// ("Volume: front-left: 29491 /  45% / ..."): the percentage after the first `/`, as a
/// share of one hundred.
pub fn pactl_level(out: &[u8]) -> (r: Option<u32>)
    ensures
        r == match percent_field(out@) {
            Some(w) => match fitting(decimal_level(w)) {
                Some(v) => Some((v / 100) as u32),
                None => None,
            },
            None => None,
        },
{
    let n = out.len();
    let p = find_byte_at(out, 47, 0, n);
    if p >= n {
        return None;
    }
    let q = find_byte_at(out, 47, p + 1, n);
    let lo = skip_space_at(out, p + 1, q);
    let hi = trim_end_at(out, lo, q);
    if hi > lo && out[hi - 1] == 37 {
        let lo2 = skip_space_at(out, lo, hi - 1);
        let hi2 = trim_end_at(out, lo2, hi - 1);
        match parse_fitting(slice_subrange(out, lo2, hi2)) {
            Some(v) => Some(v / 100),
            None => None,
        }
    } else {
        None
    }
}

/// ASCII decimal digit.
pub open spec fn is_digit(b: u8) -> bool {
    48 <= b <= 57
}

pub open spec fn all_digits(s: Seq<u8>) -> bool {
    forall|i: int| 0 <= i < s.len() ==> is_digit(#[trigger] s[i])
}

/// The number that decimal digits `s` spell.
pub open spec fn digits_value(s: Seq<u8>) -> int
    decreases s.len(),
{
    if s.len() == 0 {
        0
    } else {
        digits_value(s.drop_last()) * 10 + (s.last() - 48)
    }
}

/// The first four fraction digits `f` as ten-thousandths; missing digits count as zero.
pub open spec fn ten_thousandths(f: Seq<u8>) -> int {
    if f.len() >= 4 {
        digits_value(f.take(4))
    } else {
        digits_value(f + Seq::new((4 - f.len()) as nat, |i: int| 48u8))
    }
}

/// `s` is digits, a point at `k`, and digits again.
pub open spec fn point_at(s: Seq<u8>, k: int) -> bool {
    &&& 0 < k < s.len() - 1
    &&& s[k] == 46
    &&& all_digits(s.take(k))
    &&& all_digits(s.skip(k + 1))
}

/// The level, scaled by `LEVEL_SCALE`, of a decimal number written `I` or `I.F`; fraction
/// digits past the fourth are dropped.
pub open spec fn decimal_level(s: Seq<u8>) -> Option<int> {
    if s.len() > 0 && all_digits(s) {
        Some(digits_value(s) * 10000)
    } else if exists|k: int| point_at(s, k) {
        let k = choose|k: int| point_at(s, k);
        Some(digits_value(s.take(k)) * 10000 + ten_thousandths(s.skip(k + 1)))
    } else {
        None
    }
}

proof fn lemma_digits_prefix(s: Seq<u8>, i: int)
    requires
        0 <= i <= s.len(),
        all_digits(s),
    ensures
        0 <= digits_value(s.take(i)) <= digits_value(s),
    decreases s.len(),
{
    if i == s.len() {
        assert(s.take(i) =~= s);
        lemma_digits_nonneg(s);
    } else {
        let d = s.drop_last();
        assert(all_digits(d));
        lemma_digits_prefix(d, i);
        assert(d.take(i) =~= s.take(i));
        lemma_digits_nonneg(d);
    }
}

proof fn lemma_digits_nonneg(s: Seq<u8>)
    requires
        all_digits(s),
    ensures
        digits_value(s) >= 0,
    decreases s.len(),
{
    if s.len() > 0 {
        assert(all_digits(s.drop_last()));
        lemma_digits_nonneg(s.drop_last());
    }
}

/// The value of the digits `s[from..to]`, where it stays within `cap`.
fn digits_upto(s: &[u8], from: usize, to: usize, cap: u64) -> (r: Option<u64>)
    requires
        from <= to <= s@.len(),
        all_digits(s@.subrange(from as int, to as int)),
        cap <= 0xffff_ffff_ffff,
    ensures
        r matches Some(v) ==> v == digits_value(s@.subrange(from as int, to as int)) && v <= cap,
        r is None ==> digits_value(s@.subrange(from as int, to as int)) > cap,
{
    let ghost all = s@.subrange(from as int, to as int);
    let mut acc: u64 = 0;
    let mut i: usize = from;
    while i < to
        invariant
            from <= i <= to <= s@.len(),
            all == s@.subrange(from as int, to as int),
            all_digits(all),
            cap <= 0xffff_ffff_ffff,
            acc == digits_value(all.take(i - from)),
            acc <= cap,
        decreases to - i,
    {
        assert(all.take(i - from + 1).drop_last() =~= all.take(i - from));
        assert(all.take(i - from + 1).last() == s@[i as int]);
        assert(is_digit(all[i - from]));
        acc = acc * 10 + (s[i] - 48) as u64;
        if acc > cap {
            proof {
                lemma_digits_prefix(all, i - from + 1);
            }
            return None;
        }
        i = i + 1;
    }
    assert(all.take(to - from) =~= all);
    Some(acc)
}

/// Reads a level written as a decimal number `I` or `I.F`, scaled by `LEVEL_SCALE` and
/// with fraction digits past the fourth dropped; anything else, or a level above
/// `u32::MAX`, is refused.
pub fn parse_level(s: &[u8]) -> (r: Option<u32>)
    ensures
        r matches Some(v) ==> decimal_level(s@) == Some(v as int),
        r is None ==> match decimal_level(s@) {
            Some(v) => v > u32::MAX,
            None => true,
        },
{
    let n = s.len();
    let mut k: usize = 0;
    while k < n && s[k] != 46
        invariant
            k <= n == s@.len(),
            forall|j: int| 0 <= j < k ==> s@[j] != 46,
        decreases n - k,
    {
        k = k + 1;
    }
    let mut ok = true;
    let mut j: usize = 0;
    while j < n
        invariant
            j <= n == s@.len(),
            k <= n,
            ok == forall|i: int| 0 <= i < j && i != k ==> is_digit(#[trigger] s@[i]),
        decreases n - j,
    {
        if j != k && !(s[j] >= 48 && s[j] <= 57) {
            ok = false;
        }
        j = j + 1;
    }
    if !ok || n == 0 || k == 0 || (k < n && n - k == 1) {
        proof {
            if s@.len() > 0 && all_digits(s@) {
                assert(k == n);
                assert(ok);
            }
            if exists|p: int| point_at(s@, p) {
                let p = choose|p: int| point_at(s@, p);
                if p < k {
                    assert(s@[p] == 46);
                }
                if p > k {
                    assert(s@.take(p)[k as int] == s@[k as int]);
                }
                assert(p == k);
                assert forall|i: int| 0 <= i < n && i != k implies is_digit(#[trigger] s@[i]) by {
                    if i < k {
                        assert(s@.take(p)[i] == s@[i]);
                    } else {
                        assert(s@.skip(p + 1)[i - p - 1] == s@[i]);
                    }
                }
            }
        }
        return None;
    }
    if k == n {
        assert(s@.subrange(0, n as int) =~= s@);
        match digits_upto(s, 0, n, 429496) {
            Some(w) => Some((w * 10000) as u32),
            None => None,
        }
    } else {
        proof {
            assert(s@.subrange(0, k as int) =~= s@.take(k as int));
            assert(s@.subrange(k as int + 1, n as int) =~= s@.skip(k as int + 1));
            assert(all_digits(s@.take(k as int)));
            assert(all_digits(s@.skip(k as int + 1)));
            assert(point_at(s@, k as int));
            assert forall|p: int| point_at(s@, p) implies p == k by {
                if p < k {
                    assert(s@[p] == 46);
                }
                if p > k {
                    assert(s@.take(p)[k as int] == s@[k as int]);
                }
            }
        }
        let ghost f = s@.skip(k as int + 1);
        let ghost padded = if f.len() >= 4 {
            f.take(4)
        } else {
            f + Seq::new((4 - f.len()) as nat, |i: int| 48u8)
        };
        proof {
            assert forall|m: int| 0 <= m < padded.len() implies is_digit(#[trigger] padded[m]) by {
                if m < f.len() {
                    assert(is_digit(f[m]));
                }
            }
            lemma_digits_nonneg(padded);
            assert(ten_thousandths(f) == digits_value(padded));
        }
        let whole = match digits_upto(s, 0, k, 429496) {
            Some(w) => w,
            None => return None,
        };
        let mut frac: u64 = 0;
        let mut i: usize = 0;
        assert(pow10(0) == 1 && pow10(1) == 10 && pow10(2) == 100 && pow10(3) == 1000 && pow10(4) == 10000) by {
            reveal_with_fuel(pow10, 5);
        }
        while i < 4
            invariant
                i <= 4,
                k + 1 < n == s@.len(),
                f == s@.skip(k as int + 1),
                all_digits(f),
                padded.len() == 4,
                forall|m: int| 0 <= m < 4 ==> #[trigger] padded[m] == if m < f.len() { f[m] } else { 48u8 },
                frac == digits_value(padded.take(i as int)),
                frac < pow10(i as nat),
                pow10(0) == 1 && pow10(1) == 10 && pow10(2) == 100 && pow10(3) == 1000 && pow10(4)
                    == 10000,
            decreases 4 - i,
        {
            proof {
                if (i as int) < f.len() {
                    assert(f[i as int] == s@[k + 1 + i]);
                    assert(is_digit(f[i as int]));
                }
                assert(padded.take(i as int + 1).drop_last() =~= padded.take(i as int));
                assert forall|m: int| 0 <= m < i + 1 implies is_digit(
                    #[trigger] padded.take(i as int + 1)[m],
                ) by {
                    if m < f.len() {
                        assert(is_digit(f[m]));
                    }
                }
                lemma_digits_bound(padded.take(i as int + 1));
            }
            let d: u64 = if i < n - k - 1 { (s[k + 1 + i] - 48) as u64 } else { 0 };
            frac = frac * 10 + d;
            i = i + 1;
        }
        assert(padded.take(4) =~= padded);
        let total: u64 = whole * 10000 + frac;
        if total > u32::MAX as u64 {
            None
        } else {
            Some(total as u32)
        }
    }
}

proof fn lemma_digits_bound(s: Seq<u8>)
    requires
        all_digits(s),
    ensures
        0 <= digits_value(s) < pow10(s.len()),
    decreases s.len(),
{
    if s.len() > 0 {
        assert(all_digits(s.drop_last()));
        lemma_digits_bound(s.drop_last());
    }
}

pub open spec fn pow10(n: nat) -> int
    decreases n,
{
    if n == 0 {
        1
    } else {
        10 * pow10((n - 1) as nat)
    }
}

} // verus!
