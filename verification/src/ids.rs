//! Identifier generation.
//!
//! Every entity receives an immutable, opaque string identifier at creation.
//! An identifier is the decimal rendering of a generation counter, a dash,
//! and a random suffix; the counter alone already makes identifiers from one
//! generator pairwise distinct, which is proved below.

use vstd::prelude::*;

verus! {

/// The character for a single decimal digit value.
pub open spec fn dec_digit(d: u64) -> char {
    if d == 0 {
        '0'
    } else if d == 1 {
        '1'
    } else if d == 2 {
        '2'
    } else if d == 3 {
        '3'
    } else if d == 4 {
        '4'
    } else if d == 5 {
        '5'
    } else if d == 6 {
        '6'
    } else if d == 7 {
        '7'
    } else if d == 8 {
        '8'
    } else {
        '9'
    }
}

/// Whether a character is a decimal digit.
pub open spec fn is_dec_digit_char(c: char) -> bool {
    c == '0' || c == '1' || c == '2' || c == '3' || c == '4' || c == '5' || c == '6' || c == '7'
        || c == '8' || c == '9'
}

/// Decimal rendering of a counter, most significant digit first.
pub open spec fn dec_chars(n: u64) -> Seq<char>
    decreases n,
{
    if n < 10 {
        seq![dec_digit(n)]
    } else {
        dec_chars(n / 10) + seq![dec_digit(n % 10)]
    }
}

/// The shape of every identifier this library hands out: the decimal
/// rendering of the generation counter, a dash, and an opaque suffix.
pub open spec fn gen_id_chars(counter: u64, suffix: Seq<char>) -> Seq<char> {
    dec_chars(counter) + seq!['-'] + suffix
}

/// An identifier is well formed when some counter and suffix produce it.
pub open spec fn is_generated_id(s: Seq<char>) -> bool {
    exists|counter: u64, suffix: Seq<char>| s == gen_id_chars(counter, suffix)
}

fn digit_str(d: u64) -> (r: &'static str)
    requires
        d < 10,
    ensures
        r@ == seq![dec_digit(d)],
{
    proof {
        reveal_strlit("0");
        reveal_strlit("1");
        reveal_strlit("2");
        reveal_strlit("3");
        reveal_strlit("4");
        reveal_strlit("5");
        reveal_strlit("6");
        reveal_strlit("7");
        reveal_strlit("8");
        reveal_strlit("9");
    }
    let r: &'static str = if d == 0 {
        "0"
    } else if d == 1 {
        "1"
    } else if d == 2 {
        "2"
    } else if d == 3 {
        "3"
    } else if d == 4 {
        "4"
    } else if d == 5 {
        "5"
    } else if d == 6 {
        "6"
    } else if d == 7 {
        "7"
    } else if d == 8 {
        "8"
    } else {
        "9"
    };
    proof {
        assert(r@ =~= seq![dec_digit(d)]);
    }
    r
}

/// Renders a counter in decimal.
pub fn render_u64(n: u64) -> (s: String)
    ensures
        s@ == dec_chars(n),
    decreases n,
{
    if n < 10 {
        digit_str(n).to_owned()
    } else {
        let mut s = render_u64(n / 10);
        s.append(digit_str(n % 10));
        s
    }
}

/// Relies on `uuid::Uuid::new_v4` and its hyphenated text rendering: a
/// randomly generated suffix, about which nothing is assumed.
#[verifier::external_body]
fn uuid_suffix() -> (r: String) {
    uuid::Uuid::new_v4().to_string()
}

/// The identifier generator: a counter paired with a random suffix source.
/// The counter saturates at its maximum, far beyond any realistic number of
/// creations; distinctness of generated identifiers is guaranteed as long as
/// it has not saturated.
pub struct IdGen {
    pub issued: u64,
}

impl IdGen {
    /// A generator that has issued nothing yet.
    pub fn new() -> (g: IdGen)
        ensures
            g.issued == 0,
    {
        IdGen { issued: 0 }
    }

    /// Hands out the next identifier and advances the counter.
    pub fn fresh_id(&mut self) -> (r: String)
        ensures
            exists|suffix: Seq<char>| r@ == gen_id_chars(old(self).issued, suffix),
            is_generated_id(r@),
            final(self).issued == if old(self).issued < u64::MAX {
                (old(self).issued + 1) as u64
            } else {
                u64::MAX
            },
    {
        let mut s = render_u64(self.issued);
        s.append("-");
        let u = uuid_suffix();
        s.append(u.as_str());
        if self.issued < u64::MAX {
            self.issued = self.issued + 1;
        }
        proof {
            reveal_strlit("-");
            assert("-"@ =~= seq!['-']);
            assert(s@ == gen_id_chars(old(self).issued, u@));
        }
        s
    }
}

/// Every character of a decimal rendering is a digit, and there is at least
/// one of them.
pub proof fn lemma_dec_chars_digits(n: u64)
    ensures
        dec_chars(n).len() >= 1,
        forall|i: int|
            0 <= i < dec_chars(n).len() ==> is_dec_digit_char(#[trigger] dec_chars(n)[i]),
    decreases n,
{
    if n >= 10 {
        lemma_dec_chars_digits(n / 10);
    }
}

/// Distinct counters have distinct decimal renderings.
pub proof fn lemma_dec_chars_injective(a: u64, b: u64)
    requires
        dec_chars(a) == dec_chars(b),
    ensures
        a == b,
    decreases a,
{
    if a < 10 && b < 10 {
        assert(dec_chars(a) == seq![dec_digit(a)]);
        assert(dec_chars(b) == seq![dec_digit(b)]);
        assert(seq![dec_digit(a)][0] == dec_digit(a));
        assert(seq![dec_digit(b)][0] == dec_digit(b));
    } else if a < 10 && b >= 10 {
        lemma_dec_chars_digits(b / 10);
        assert(dec_chars(b).len() >= 2);
        assert(false);
    } else if a >= 10 && b < 10 {
        lemma_dec_chars_digits(a / 10);
        assert(dec_chars(a).len() >= 2);
        assert(false);
    } else {
        let pa = dec_chars(a / 10);
        let pb = dec_chars(b / 10);
        assert(dec_chars(a) == pa + seq![dec_digit(a % 10)]);
        assert(dec_chars(b) == pb + seq![dec_digit(b % 10)]);
        assert(pa.len() + 1 == pb.len() + 1);
        assert(dec_chars(a)[pa.len() as int] == dec_digit(a % 10));
        assert(dec_chars(b)[pb.len() as int] == dec_digit(b % 10));
        assert(a % 10 == b % 10);
        assert(forall|i: int| 0 <= i < pa.len() ==> pa[i] == #[trigger] pb[i]) by {
            assert(forall|i: int|
                0 <= i < pa.len() ==> #[trigger] pa[i] == dec_chars(a)[i] && #[trigger] pb[i]
                    == dec_chars(b)[i]);
        }
        assert(pa =~= pb);
        lemma_dec_chars_injective(a / 10, b / 10);
        assert(a / 10 == b / 10);
        vstd::arithmetic::div_mod::lemma_fundamental_div_mod(a as int, 10);
        vstd::arithmetic::div_mod::lemma_fundamental_div_mod(b as int, 10);
    }
}

/// Identifiers generated at distinct counter values never collide, whatever
/// their random suffixes are.
pub proof fn lemma_gen_ids_distinct(c1: u64, s1: Seq<char>, c2: u64, s2: Seq<char>)
    requires
        c1 != c2,
    ensures
        gen_id_chars(c1, s1) != gen_id_chars(c2, s2),
{
    if gen_id_chars(c1, s1) == gen_id_chars(c2, s2) {
        let d1 = dec_chars(c1);
        let d2 = dec_chars(c2);
        lemma_dec_chars_digits(c1);
        lemma_dec_chars_digits(c2);
        if d1.len() == d2.len() {
            assert(forall|i: int| 0 <= i < d1.len() ==> d1[i] == #[trigger] d2[i]) by {
                assert(forall|i: int|
                    0 <= i < d1.len() ==> #[trigger] d1[i] == gen_id_chars(c1, s1)[i]
                        && #[trigger] d2[i] == gen_id_chars(c2, s2)[i]);
            }
            assert(d1 =~= d2);
            lemma_dec_chars_injective(c1, c2);
        } else if d1.len() < d2.len() {
            assert(gen_id_chars(c1, s1)[d1.len() as int] == '-');
            assert(gen_id_chars(c2, s2)[d1.len() as int] == d2[d1.len() as int]);
            assert(is_dec_digit_char(d2[d1.len() as int]));
            assert(false);
        } else {
            assert(gen_id_chars(c2, s2)[d2.len() as int] == '-');
            assert(gen_id_chars(c1, s1)[d2.len() as int] == d1[d2.len() as int]);
            assert(is_dec_digit_char(d1[d2.len() as int]));
            assert(false);
        }
    }
}

/// Any run of generations at pairwise distinct counter values — in
/// particular, any run of sequential generations from one generator that has
/// not saturated — yields pairwise distinct identifiers.
pub proof fn lemma_id_run_pairwise_distinct(
    ids: Seq<Seq<char>>,
    counters: Seq<u64>,
    suffixes: Seq<Seq<char>>,
)
    requires
        ids.len() == counters.len(),
        ids.len() == suffixes.len(),
        forall|i: int|
            0 <= i < ids.len() ==> ids[i] == gen_id_chars(#[trigger] counters[i], suffixes[i]),
        forall|i: int, j: int|
            0 <= i < j < ids.len() ==> #[trigger] counters[i] != #[trigger] counters[j],
    ensures
        forall|i: int, j: int| 0 <= i < j < ids.len() ==> #[trigger] ids[i] != #[trigger] ids[j],
{
    assert forall|i: int, j: int| 0 <= i < j < ids.len() implies #[trigger] ids[i]
        != #[trigger] ids[j] by {
        lemma_gen_ids_distinct(counters[i], suffixes[i], counters[j], suffixes[j]);
    }
}

} // verus!
