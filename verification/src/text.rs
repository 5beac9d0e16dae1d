//! Decimal text of ids and comma-separated lists of it.

use vstd::prelude::*;
use vstd::string::*;

verus! {

/// The character of a decimal digit.
pub open spec fn digit_char(d: nat) -> char
    recommends
        d < 10,
{
    (48 + d) as char
}

/// The decimal digits of `n`, most significant first, without leading zeros.
pub open spec fn digits(n: nat) -> Seq<char>
    decreases n,
{
    if n < 10 {
        seq![digit_char(n)]
    } else {
        digits(n / 10).push(digit_char(n % 10))
    }
}

/// The decimal text of `x`: a minus sign for a negative number, then the
/// digits of its magnitude.
pub open spec fn decimal(x: int) -> Seq<char> {
    if x < 0 {
        seq!['-'] + digits((-x) as nat)
    } else {
        digits(x as nat)
    }
}

/// The texts of `parts` with a comma between each two.
pub open spec fn join_commas(parts: Seq<Seq<char>>) -> Seq<char>
    decreases parts.len(),
{
    if parts.len() == 0 {
        Seq::empty()
    } else if parts.len() == 1 {
        parts[0]
    } else {
        join_commas(parts.drop_last()) + seq![','] + parts.last()
    }
}

/// The decimal texts of a list of ids, joined by commas.
pub open spec fn id_list(ids: Seq<i64>) -> Seq<char> {
    join_commas(ids.map_values(|id: i64| decimal(id as int)))
}

/// Every id's decimal text followed by a comma, one after the other.
pub open spec fn terminated_list(ids: Seq<i64>) -> Seq<char>
    decreases ids.len(),
{
    if ids.len() == 0 {
        Seq::empty()
    } else {
        terminated_list(ids.drop_last()) + decimal(ids.last() as int) + seq![',']
    }
}

/// Writing each id followed by a comma and then dropping the final comma
/// gives the comma-separated list.
pub proof fn lemma_list_drops_final_comma(ids: Seq<i64>)
    requires
        ids.len() > 0,
    ensures
        terminated_list(ids) == id_list(ids).push(','),
    decreases ids.len(),
{
    let parts = ids.map_values(|id: i64| decimal(id as int));
    if ids.len() == 1 {
        assert(ids.drop_last() =~= Seq::<i64>::empty());
        assert(terminated_list(ids.drop_last()) =~= Seq::<char>::empty());
        assert(terminated_list(ids) =~= id_list(ids).push(','));
    } else {
        lemma_list_drops_final_comma(ids.drop_last());
        assert(parts.drop_last() =~= ids.drop_last().map_values(|id: i64| decimal(id as int)));
        assert(terminated_list(ids) =~= id_list(ids).push(','));
    }
}

/// std's `ToString` for `i64` (its `Display`): an optional minus sign and the
/// decimal digits without leading zeros.
#[verifier::external_body]
pub(crate) fn i64_to_string(x: i64) -> (s: String)
    ensures
        s@ == decimal(x as int),
{
    x.to_string()
}

/// The ids of `ids` as decimal numbers separated by commas, such as
/// `1,-20,300`; empty for no ids.
pub fn join_ids(ids: &Vec<i64>) -> (s: String)
    ensures
        s@ == id_list(ids@),
{
    let mut s = String::new();
    let mut i: usize = 0;
    while i < ids.len()
        invariant
            i <= ids.len(),
            s@ == id_list(ids@.take(i as int)),
        decreases ids.len() - i,
    {
        let part = i64_to_string(ids[i]);
        let ghost before = s@;
        let ghost parts = ids@.take(i as int + 1).map_values(|id: i64| decimal(id as int));
        proof {
            assert(parts.drop_last() =~= ids@.take(i as int).map_values(|id: i64| decimal(id as int)));
            assert(parts.last() == part@);
        }
        if i > 0 {
            s.append(",");
            proof {
                reveal_strlit(",");
                assert(","@ =~= seq![',']);
            }
            s.append(part.as_str());
            assert(s@ =~= before + seq![','] + part@);
        } else {
            s.append(part.as_str());
            assert(parts.len() == 1);
            assert(before =~= Seq::<char>::empty());
            assert(s@ =~= parts[0]);
        }
        assert(s@ == join_commas(parts));
        i = i + 1;
    }
    assert(ids@.take(ids.len() as int) =~= ids@);
    s
}

/// The list of no ids is empty, the list of one id is its decimal text, and
/// the list of two runs of ids is their lists joined by one comma.
pub proof fn lemma_id_list_rule(a: Seq<i64>, b: Seq<i64>)
    requires
        a.len() > 0,
        b.len() > 0,
    ensures
        id_list(Seq::empty()) == Seq::<char>::empty(),
        id_list(seq![a[0]]) == decimal(a[0] as int),
        id_list(a + b) == id_list(a) + seq![','] + id_list(b),
    decreases b.len(),
{
    assert(Seq::<i64>::empty().map_values(|id: i64| decimal(id as int)) =~= Seq::<Seq<char>>::empty());
    assert(seq![a[0]].map_values(|id: i64| decimal(id as int)) =~= seq![decimal(a[0] as int)]);
    let ab = a + b;
    let parts = ab.map_values(|id: i64| decimal(id as int));
    if b.len() == 1 {
        assert(ab.drop_last() =~= a);
        assert(parts.drop_last() =~= a.map_values(|id: i64| decimal(id as int)));
        assert(b.map_values(|id: i64| decimal(id as int)) =~= seq![decimal(b[0] as int)]);
    } else {
        let b1 = b.drop_last();
        lemma_id_list_rule(a, b1);
        assert(ab.drop_last() =~= a + b1);
        assert(parts.drop_last() =~= (a + b1).map_values(|id: i64| decimal(id as int)));
        let bp = b.map_values(|id: i64| decimal(id as int));
        assert(bp.drop_last() =~= b1.map_values(|id: i64| decimal(id as int)));
        assert(id_list(a + b) =~= id_list(a) + seq![','] + id_list(b));
    }
}

} // verus!
