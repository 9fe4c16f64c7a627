use vstd::prelude::*;
use vstd::string::StrSliceExecFns;

verus! {

/// An account or contract address on the ledger, held in its textual
/// (strkey) form. Two addresses are the same account exactly when their
/// strkeys are the same text.
pub struct Address {
    pub strkey: String,
}

/// The digit that a strkey character stands for in the base-32 alphabet
/// (`A` to `Z`, then `2` to `7`); any other character ranks after every
/// digit, by its code.
pub open spec fn char_rank(c: char) -> int {
    let n = (c as u32) as int;
    if 65 <= n <= 90 {
        n - 65
    } else if 50 <= n <= 55 {
        n - 50 + 26
    } else {
        n + 32
    }
}

/// The kind of address that a strkey names: 0 for an account (`G...`),
/// 1 for anything else (contracts).
pub open spec fn address_kind(s: Seq<char>) -> int {
    if s.len() > 0 && s[0] == 'G' {
        0
    } else {
        1
    }
}

/// What addresses are ordered by: their kind, accounts first, then the
/// base-32 digits of the strkey, which spell out the key's bytes.
pub open spec fn sort_key(s: Seq<char>) -> Seq<int> {
    seq![address_kind(s)] + s.map_values(|c: char| char_rank(c))
}

/// Lexicographic order on integer sequences, a proper prefix first.
pub open spec fn lex_less(a: Seq<int>, b: Seq<int>) -> bool
    decreases a.len(),
{
    if b.len() == 0 {
        false
    } else if a.len() == 0 {
        true
    } else if a[0] != b[0] {
        a[0] < b[0]
    } else {
        lex_less(a.drop_first(), b.drop_first())
    }
}

/// Whether address `a` comes before address `b` in the ledger's key order.
pub open spec fn key_precedes(a: Seq<char>, b: Seq<char>) -> bool {
    lex_less(sort_key(a), sort_key(b))
}

/// No sequence comes before itself.
pub proof fn lemma_lex_irreflexive(a: Seq<int>)
    ensures
        !lex_less(a, a),
    decreases a.len(),
{
    if a.len() > 0 {
        lemma_lex_irreflexive(a.drop_first());
    }
}

/// The lexicographic order is transitive.
pub proof fn lemma_lex_transitive(a: Seq<int>, b: Seq<int>, c: Seq<int>)
    requires
        lex_less(a, b),
        lex_less(b, c),
    ensures
        lex_less(a, c),
    decreases a.len(),
{
    if a.len() > 0 && b.len() > 0 && c.len() > 0 && a[0] == b[0] && b[0] == c[0] {
        lemma_lex_transitive(a.drop_first(), b.drop_first(), c.drop_first());
    }
}

/// Of two different sequences, one comes before the other.
pub proof fn lemma_lex_total(a: Seq<int>, b: Seq<int>)
    requires
        a != b,
    ensures
        lex_less(a, b) || lex_less(b, a),
    decreases a.len(),
{
    if a.len() == 0 && b.len() == 0 {
        assert(a =~= b);
    } else if a.len() > 0 && b.len() > 0 && a[0] == b[0] {
        if a.drop_first() == b.drop_first() {
            assert(a =~= seq![a[0]] + a.drop_first());
            assert(b =~= seq![b[0]] + b.drop_first());
        }
        lemma_lex_total(a.drop_first(), b.drop_first());
    }
}

/// Different strkeys have different sort keys.
pub proof fn lemma_sort_key_injective(a: Seq<char>, b: Seq<char>)
    requires
        sort_key(a) == sort_key(b),
    ensures
        a == b,
{
    assert(sort_key(a).len() == a.len() + 1);
    assert(sort_key(b).len() == b.len() + 1);
    assert forall|i: int| 0 <= i < a.len() implies a[i] == b[i] by {
        assert(sort_key(a)[i + 1] == char_rank(a[i]));
        assert(sort_key(b)[i + 1] == char_rank(b[i]));
        assert(char_rank(a[i]) == char_rank(b[i]));
        assert((a[i] as u32) == (b[i] as u32));
        vstd::utf8::char_u32_cast(a[i], a[i] as u32);
        vstd::utf8::char_u32_cast(b[i], b[i] as u32);
    }
    assert(a =~= b);
}

/// `key_precedes` is a strict total order on addresses.
pub proof fn lemma_key_order(a: Seq<char>, b: Seq<char>, c: Seq<char>)
    ensures
        !key_precedes(a, a),
        key_precedes(a, b) && key_precedes(b, c) ==> key_precedes(a, c),
        a != b ==> key_precedes(a, b) || key_precedes(b, a),
{
    lemma_lex_irreflexive(sort_key(a));
    if key_precedes(a, b) && key_precedes(b, c) {
        lemma_lex_transitive(sort_key(a), sort_key(b), sort_key(c));
    }
    if a != b {
        if sort_key(a) == sort_key(b) {
            lemma_sort_key_injective(a, b);
        }
        lemma_lex_total(sort_key(a), sort_key(b));
    }
}

/// The rank of `c` (see `char_rank`).
fn rank_of(c: char) -> (r: u64)
    ensures
        r as int == char_rank(c),
{
    let n: u64 = c as u32 as u64;
    if 65 <= n && n <= 90 {
        n - 65
    } else if 50 <= n && n <= 55 {
        n - 50 + 26
    } else {
        n + 32
    }
}

impl View for Address {
    type V = Seq<char>;

    open spec fn view(&self) -> Seq<char> {
        self.strkey@
    }
}

impl Clone for Address {
    fn clone(&self) -> (r: Self)
        ensures
            r == *self,
    {
        Address { strkey: self.strkey.clone() }
    }
}

impl Address {
    /// Makes the address whose strkey is `strkey`.
    pub fn new(strkey: String) -> (r: Address)
        ensures
            r@ == strkey@,
            r.strkey == strkey,
    {
        Address { strkey }
    }

    /// Whether `self` and `other` name the same account.
    pub fn same_as(&self, other: &Address) -> (r: bool)
        ensures
            r == (self@ == other@),
    {
        self.strkey == other.strkey
    }
    /// Whether `self` comes before `other` in the ledger's key order.
    pub fn precedes(&self, other: &Address) -> (r: bool)
        ensures
            r == key_precedes(self@, other@),
    {
        let a = self.strkey.as_str();
        let b = other.strkey.as_str();
        let la = a.unicode_len();
        let lb = b.unicode_len();
        let ka: u8 = if la > 0 && a.get_char(0) == 'G' { 0 } else { 1 };
        let kb: u8 = if lb > 0 && b.get_char(0) == 'G' { 0 } else { 1 };
        let ghost ra = self@.map_values(|c: char| char_rank(c));
        let ghost rb = other@.map_values(|c: char| char_rank(c));
        proof {
            assert(sort_key(self@)[0] == ka as int);
            assert(sort_key(other@)[0] == kb as int);
            assert(sort_key(self@).drop_first() =~= ra);
            assert(sort_key(other@).drop_first() =~= rb);
        }
        if ka != kb {
            return ka < kb;
        }
        proof {
            assert(ra =~= ra.subrange(0, la as int));
            assert(rb =~= rb.subrange(0, lb as int));
        }
        let mut i: usize = 0;
        while i < la && i < lb
            invariant
                a@ == self@,
                b@ == other@,
                la == self@.len(),
                lb == other@.len(),
                i <= la,
                i <= lb,
                ra == self@.map_values(|c: char| char_rank(c)),
                rb == other@.map_values(|c: char| char_rank(c)),
                key_precedes(self@, other@) == lex_less(ra.subrange(i as int, la as int), rb.subrange(i as int, lb as int)),
            decreases la - i,
        {
            let x = rank_of(a.get_char(i));
            let y = rank_of(b.get_char(i));
            let ghost sa = ra.subrange(i as int, la as int);
            let ghost sb = rb.subrange(i as int, lb as int);
            proof {
                assert(sa[0] == x as int);
                assert(sb[0] == y as int);
            }
            if x != y {
                return x < y;
            }
            proof {
                assert(sa.drop_first() =~= ra.subrange(i + 1, la as int));
                assert(sb.drop_first() =~= rb.subrange(i + 1, lb as int));
            }
            i = i + 1;
        }
        i < lb
    }
}

} // verus!
