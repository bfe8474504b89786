use vstd::prelude::*;

verus! {

/// The decimal digits of `n`, most significant first, as ASCII bytes.
pub open spec fn spec_decimal_digits(n: nat) -> Seq<u8>
    decreases n,
{
    if n < 10 {
        seq![(n + 48) as u8]
    } else {
        spec_decimal_digits(n / 10).push((n % 10 + 48) as u8)
    }
}

/// The counter label `Cubes: <n>` as ASCII bytes.
pub open spec fn spec_counter_label(n: nat) -> Seq<u8> {
    seq![67u8, 117u8, 98u8, 101u8, 115u8, 58u8, 32u8] + spec_decimal_digits(n)
}

/// Writes `n` in decimal, most significant digit first.
pub fn decimal_digits(n: u32) -> (r: Vec<u8>)
    ensures
        r@ == spec_decimal_digits(n as nat),
    decreases n,
{
    if n < 10 {
        let mut v: Vec<u8> = Vec::new();
        v.push((n as u8) + 48);
        proof {
            assert(v@ =~= spec_decimal_digits(n as nat));
        }
        v
    } else {
        let mut v = decimal_digits(n / 10);
        v.push((n % 10) as u8 + 48);
        proof {
            assert(v@ =~= spec_decimal_digits(n as nat));
        }
        v
    }
}

/// Every decimal digit byte lies between ASCII `0` and `9`.
pub proof fn lemma_decimal_digits_are_ascii(n: nat)
    ensures
        forall|i: int| 0 <= i < spec_decimal_digits(n).len()
            ==> 48 <= #[trigger] spec_decimal_digits(n)[i] <= 57,
    decreases n,
{
    if n < 10 {
        assert(spec_decimal_digits(n)[0] == (n + 48) as u8);
    } else {
        lemma_decimal_digits_are_ascii(n / 10);
        let tail = spec_decimal_digits(n / 10);
        let d = (n % 10 + 48) as u8;
        assert forall|i: int| 0 <= i < spec_decimal_digits(n).len()
            implies 48 <= #[trigger] spec_decimal_digits(n)[i] <= 57 by {
            if i < tail.len() {
                assert(spec_decimal_digits(n)[i] == tail[i]);
            } else {
                assert(spec_decimal_digits(n)[i] == d);
            }
        }
    }
}

/// Every byte of the counter label is printable ASCII, so the label is
/// always valid UTF-8.
pub proof fn lemma_counter_label_is_ascii(n: nat)
    ensures
        forall|i: int| 0 <= i < spec_counter_label(n).len()
            ==> 32 <= #[trigger] spec_counter_label(n)[i] <= 126,
{
    lemma_decimal_digits_are_ascii(n);
    let p = seq![67u8, 117u8, 98u8, 101u8, 115u8, 58u8, 32u8];
    assert forall|i: int| 0 <= i < spec_counter_label(n).len()
        implies 32 <= #[trigger] spec_counter_label(n)[i] <= 126 by {
        if i < 7 {
            assert(spec_counter_label(n)[i] == p[i]);
            assert(p[0] == 67 && p[1] == 117 && p[2] == 98 && p[3] == 101
                && p[4] == 115 && p[5] == 58 && p[6] == 32);
        } else {
            assert(spec_counter_label(n)[i] == spec_decimal_digits(n)[i - 7]);
        }
    }
}

/// Builds the label text shown beside the cube counter: `Cubes: <count>`.
pub fn counter_label(count: u32) -> (r: Vec<u8>)
    ensures
        r@ == spec_counter_label(count as nat),
        forall|i: int| 0 <= i < r@.len() ==> 32 <= #[trigger] r@[i] <= 126,
{
    let mut v: Vec<u8> = Vec::new();
    v.push(67);
    v.push(117);
    v.push(98);
    v.push(101);
    v.push(115);
    v.push(58);
    v.push(32);
    let mut d = decimal_digits(count);
    v.append(&mut d);
    proof {
        assert(v@ =~= spec_counter_label(count as nat));
        lemma_counter_label_is_ascii(count as nat);
    }
    v
}

} // verus!
