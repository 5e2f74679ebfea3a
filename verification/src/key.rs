use vstd::prelude::*;

verus! {

/// The ASCII decimal digits of `n`, most significant first, with no
/// leading zero (zero is the single digit `0`).
pub open spec fn decimal(n: nat) -> Seq<u8>
    decreases n,
{
    if n < 10 {
        seq![(48 + n) as u8]
    } else {
        decimal(n / 10).push((48 + n % 10) as u8)
    }
}

/// The decimal text of a token id, which names the token's storage entry
/// (beside the fixed prefix `POS`).
pub fn id_text(id: u64) -> (t: Vec<u8>)
    ensures
        t@ == decimal(id as nat),
    decreases id,
{
    if id < 10 {
        let d: u8 = 48u8 + (id as u8);
        let mut t: Vec<u8> = Vec::new();
        t.push(d);
        t
    } else {
        let mut t = id_text(id / 10);
        let d: u8 = 48u8 + ((id % 10) as u8);
        t.push(d);
        t
    }
}

/// The decimal text of a number is never empty and has only digits.
pub proof fn lemma_decimal_digits(n: nat)
    ensures
        decimal(n).len() >= 1,
        forall|i: int| 0 <= i < decimal(n).len() ==> 48 <= #[trigger] decimal(n)[i] <= 57,
    decreases n,
{
    if n >= 10 {
        lemma_decimal_digits(n / 10);
    }
}

/// Distinct numbers have distinct decimal texts, so the storage entries of
/// distinct tokens never collide.
pub proof fn lemma_decimal_injective(a: nat, b: nat)
    requires
        decimal(a) == decimal(b),
    ensures
        a == b,
    decreases a,
{
    lemma_decimal_digits(a / 10);
    lemma_decimal_digits(b / 10);
    if a < 10 && b < 10 {
        assert(decimal(a)[0] == (48 + a) as u8);
        assert(decimal(b)[0] == (48 + b) as u8);
        assert(((48 + a) as u8) as int == 48 + a);
        assert(((48 + b) as u8) as int == 48 + b);
    } else if a < 10 {
        assert(decimal(a).len() == 1);
        assert(decimal(b).len() >= 2);
    } else if b < 10 {
        assert(decimal(b).len() == 1);
        assert(decimal(a).len() >= 2);
    } else {
        let la = decimal(a).len() - 1;
        assert(decimal(a)[la] == decimal(b)[la]);
        assert(decimal(a)[la] == (48 + a % 10) as u8);
        assert(decimal(b)[la] == (48 + b % 10) as u8);
        assert(((48 + a % 10) as u8) as int == 48 + a % 10);
        assert(((48 + b % 10) as u8) as int == 48 + b % 10);
        assert(decimal(a / 10) =~= decimal(a).drop_last());
        assert(decimal(b / 10) =~= decimal(b).drop_last());
        lemma_decimal_injective(a / 10, b / 10);
        assert(a % 10 == b % 10);
        assert(a == 10 * (a / 10) + a % 10);
        assert(b == 10 * (b / 10) + b % 10);
    }
}

} // verus!
