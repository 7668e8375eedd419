//! Sets of flags held as the bits of an `i32`.
use vstd::prelude::*;

verus! {

/// Whether bit `i` of `bits` is set.
pub open spec fn has_bit(bits: i32, i: u32) -> bool {
    ((bits >> i) & 1i32) == 1i32
}

/// The positions of the bits set in `bits`.
pub open spec fn flag_set(bits: i32) -> Set<u32> {
    Set::new(|i: u32| i < 32 && has_bit(bits, i))
}

/// How each bit of the results of the bitwise operations is made.
proof fn lemma_bit_ops(a: i32, b: i32, i: u32)
    requires
        i < 32,
    ensures
        has_bit(a | b, i) == (has_bit(a, i) || has_bit(b, i)),
        has_bit(a & b, i) == (has_bit(a, i) && has_bit(b, i)),
        has_bit(a ^ b, i) == (has_bit(a, i) != has_bit(b, i)),
        has_bit(a & !b, i) == (has_bit(a, i) && !has_bit(b, i)),
{
    assert(i < 32 ==> (((((a | b) >> i) & 1i32) == 1i32) == (((((a >> i) & 1i32) == 1i32)) || ((((b >> i) & 1i32) == 1i32))))) by (bit_vector);
    assert(i < 32 ==> (((((a & b) >> i) & 1i32) == 1i32) == (((((a >> i) & 1i32) == 1i32)) && ((((b >> i) & 1i32) == 1i32))))) by (bit_vector);
    assert(i < 32 ==> (((((a ^ b) >> i) & 1i32) == 1i32) == (((((a >> i) & 1i32) == 1i32)) != ((((b >> i) & 1i32) == 1i32))))) by (bit_vector);
    assert(i < 32 ==> (((((a & !b) >> i) & 1i32) == 1i32) == (((((a >> i) & 1i32) == 1i32)) && !((((b >> i) & 1i32) == 1i32))))) by (bit_vector);
}

/// Two values that agree on their low `n` bits agree under the mask of
/// those bits.
proof fn lemma_low_bits_agree(a: i32, b: i32, n: u32)
    requires
        n <= 31,
        forall|i: u32| i < n ==> #[trigger] has_bit(a, i) == has_bit(b, i),
    ensures
        (a & !(-1i32 << n)) == (b & !(-1i32 << n)),
    decreases n,
{
    if n == 0 {
        assert((a & !(-1i32 << 0u32)) == 0i32 && (b & !(-1i32 << 0u32)) == 0i32) by (bit_vector);
    } else {
        let k = (n - 1) as u32;
        lemma_low_bits_agree(a, b, k);
        assert(has_bit(a, k) == has_bit(b, k));
        assert(k < 31 && n == k + 1 && (a & !(-1i32 << k)) == (b & !(-1i32 << k))
            && ((((a >> k) & 1i32) == 1i32) == (((b >> k) & 1i32) == 1i32))
            ==> (a & !(-1i32 << n)) == (b & !(-1i32 << n))) by (bit_vector);
    }
}

/// Two values whose flag sets are equal are equal.
pub proof fn lemma_flag_set_ext(a: i32, b: i32)
    requires
        flag_set(a) == flag_set(b),
    ensures
        a == b,
{
    assert forall|i: u32| i < 32 implies #[trigger] has_bit(a, i) == has_bit(b, i) by {
        assert(flag_set(a).contains(i) == (i < 32 && has_bit(a, i)));
        assert(flag_set(b).contains(i) == (i < 32 && has_bit(b, i)));
        assert(flag_set(a).contains(i) == flag_set(b).contains(i));
    }
    lemma_low_bits_agree(a, b, 31u32);
    assert(has_bit(a, 31u32) == has_bit(b, 31u32));
    assert((a & !(-1i32 << 31u32)) == (b & !(-1i32 << 31u32))
        && ((((a >> 31u32) & 1i32) == 1i32) == (((b >> 31u32) & 1i32) == 1i32)) ==> a == b) by (bit_vector);
}

/// The flag sets of the bitwise operations are the set operations.
pub proof fn lemma_flag_set_ops(a: i32, b: i32)
    ensures
        flag_set(a | b) == flag_set(a).union(flag_set(b)),
        flag_set(a & b) == flag_set(a).intersect(flag_set(b)),
        flag_set(a & !b) == flag_set(a).difference(flag_set(b)),
        flag_set(a ^ b) == flag_set(a).difference(flag_set(b)).union(flag_set(b).difference(flag_set(a))),
{
    assert forall|i: u32| i < 32 implies {
        &&& has_bit(a | b, i) == (has_bit(a, i) || has_bit(b, i))
        &&& has_bit(a & b, i) == (has_bit(a, i) && has_bit(b, i))
        &&& has_bit(a ^ b, i) == (has_bit(a, i) != has_bit(b, i))
        &&& has_bit(a & !b, i) == (has_bit(a, i) && !has_bit(b, i))
    } by {
        lemma_bit_ops(a, b, i);
    }
    assert(flag_set(a | b) =~= flag_set(a).union(flag_set(b)));
    assert(flag_set(a & b) =~= flag_set(a).intersect(flag_set(b)));
    assert(flag_set(a & !b) =~= flag_set(a).difference(flag_set(b)));
    assert(flag_set(a ^ b) =~= flag_set(a).difference(flag_set(b)).union(flag_set(b).difference(flag_set(a))));
}

/// `b`'s flags are all among `a`'s exactly when `a & b == b`, and two values
/// share a flag exactly when `a & b != 0`.
pub proof fn lemma_flag_set_subset(a: i32, b: i32)
    ensures
        ((a & b) == b) <==> flag_set(b).subset_of(flag_set(a)),
        ((a & b) != 0i32) <==> !flag_set(a).disjoint(flag_set(b)),
{
    lemma_flag_set_ops(a, b);
    lemma_flag_set_zero(a & b);
    if flag_set(b).subset_of(flag_set(a)) {
        assert(flag_set(a & b) =~= flag_set(b));
        lemma_flag_set_ext(a & b, b);
    }
    if !flag_set(a).disjoint(flag_set(b)) {
        let i = choose|i: u32| flag_set(a).contains(i) && flag_set(b).contains(i);
        assert(flag_set(a & b).contains(i));
    }
    if (a & b) != 0i32 {
        assert(!flag_set(a & b).is_empty());
        let i = choose|i: u32| flag_set(a & b).contains(i);
        assert(flag_set(a).contains(i) && flag_set(b).contains(i));
    }
}

/// Only zero has no flags.
pub proof fn lemma_flag_set_zero(a: i32)
    ensures
        (a == 0i32) <==> flag_set(a).is_empty(),
{
    assert forall|i: u32| i < 32 implies !has_bit(0i32, i) by {
        assert(i < 32 ==> !((((0i32 >> i) & 1i32) == 1i32))) by (bit_vector);
    }
    assert(flag_set(0i32) =~= Set::<u32>::empty());
    if flag_set(a).is_empty() {
        assert(flag_set(a) =~= flag_set(0i32));
        lemma_flag_set_ext(a, 0i32);
    }
}

/// The flag set of a single bit.
pub proof fn lemma_flag_set_single(k: u32)
    requires
        k < 32,
    ensures
        flag_set(1i32 << k) == set![k],
{
    assert forall|i: u32| i < 32 implies has_bit(1i32 << k, i) == (i == k) by {
        assert(i < 32 && k < 32 ==> (((((1i32 << k) >> i) & 1i32) == 1i32) == (i == k))) by (bit_vector);
    }
    assert(flag_set(1i32 << k) =~= set![k]);
}

/// The flag set of the mask of the low `n` bits, for the masks of twelve
/// and of eleven bits.
pub proof fn lemma_flag_set_masks()
    ensures
        flag_set(0xFFFi32) == Set::new(|i: u32| i < 12),
        flag_set(0x7FFi32) == Set::new(|i: u32| i < 11),
{
    assert forall|i: u32| i < 32 implies has_bit(0xFFFi32, i) == (i < 12) && has_bit(0x7FFi32, i) == (i < 11) by {
        assert(i < 32 ==> (((((0xFFFi32 >> i) & 1i32) == 1i32) == (i < 12)))) by (bit_vector);
        assert(i < 32 ==> (((((0x7FFi32 >> i) & 1i32) == 1i32) == (i < 11)))) by (bit_vector);
    }
    assert(flag_set(0xFFFi32) =~= Set::new(|i: u32| i < 12));
    assert(flag_set(0x7FFi32) =~= Set::new(|i: u32| i < 11));
}

/// Identities of the bitwise operations that the flag laws rest on, for
/// any values `a`, `b`, `c` and any mask `m`.
proof fn lemma_bit_algebra(a: i32, b: i32, c: i32, m: i32)
    ensures
        ((a | b) & b) == b,
        ((a & !b) & b) == 0i32,
        ((a & !b) | (a & b)) == a,
        ((a ^ b) ^ b) == a,
        ((a | b) & !b) == (a & !b),
        ((a & m) & !m) == 0i32,
        ((a & !m) == 0i32) == ((a & m) == a),
        (!(!a & m) & m) == (a & m),
        (a & a) == a,
        (!((a & b) == b && (b & c) == c) || (a & c) == c),
        ((a | b) & a) == a,
        (a | b) == (b | a),
        (m | m) == m,
        ((m | a) == a) == ((a & m) == m),
        (!a & m) == (m & !a),
{
    assert(
        (((a | b) & b) == b)
            && (((a & !b) & b) == 0i32)
            && (((a & !b) | (a & b)) == a)
            && (((a ^ b) ^ b) == a)
            && (((a | b) & !b) == (a & !b))
            && (((a & m) & !m) == 0i32)
            && (((a & !m) == 0i32) == ((a & m) == a))
            && ((!(!a & m) & m) == (a & m))
            && ((a & a) == a)
            && ((!((a & b) == b && (b & c) == c) || (a & c) == c))
            && (((a | b) & a) == a)
            && ((a | b) == (b | a))
            && ((m | m) == m)
            && (((m | a) == a) == ((a & m) == m))
            && ((!a & m) == (m & !a))
    ) by (bit_vector);
}

/// The bits of the union of the values of `s`.
pub open spec fn union_bits(s: Seq<i32>) -> i32
    decreases s.len(),
{
    if s.len() == 0 {
        0i32
    } else {
        union_bits(s.drop_last()) | s.last()
    }
}

/// A flag is in the union of the values of `s` exactly when it is in one
/// of them.
pub proof fn lemma_union_bits_flags(s: Seq<i32>, i: u32)
    ensures
        flag_set(union_bits(s)).contains(i) <==> exists|j: int| 0 <= j < s.len() && #[trigger] flag_set(s[j]).contains(i),
    decreases s.len(),
{
    if s.len() == 0 {
        lemma_flag_set_zero(0i32);
    } else {
        let t = s.drop_last();
        lemma_union_bits_flags(t, i);
        lemma_flag_set_ops(union_bits(t), s.last());
        if flag_set(union_bits(s)).contains(i) {
            if flag_set(union_bits(t)).contains(i) {
                let j = choose|j: int| 0 <= j < t.len() && #[trigger] flag_set(t[j]).contains(i);
                assert(s[j] == t[j]);
            } else {
                assert(flag_set(s[s.len() - 1]).contains(i));
            }
        }
        if exists|j: int| 0 <= j < s.len() && #[trigger] flag_set(s[j]).contains(i) {
            let j = choose|j: int| 0 <= j < s.len() && #[trigger] flag_set(s[j]).contains(i);
            if j < s.len() - 1 {
                assert(t[j] == s[j]);
            }
        }
    }
}

/// The union of the first `n + 1` values is the union of the first `n`
/// with value `n`.
pub proof fn lemma_union_bits_step(s: Seq<i32>, n: int)
    requires
        0 <= n < s.len(),
    ensures
        union_bits(s.take(n + 1)) == (union_bits(s.take(n)) | s[n]),
        union_bits(s.take(s.len() as int)) == union_bits(s),
{
    assert(s.take(n + 1).drop_last() =~= s.take(n));
    assert(s.take(s.len() as int) =~= s);
}

/// The values whose flags all lie among those of the mask `m` are those
/// that have no bit outside `m`.
pub proof fn lemma_within_mask(bits: i32, m: i32)
    ensures
        ((bits & !m) == 0i32) <==> flag_set(bits).subset_of(flag_set(m)),
{
    lemma_flag_set_ops(bits, m);
    lemma_flag_set_zero(bits & !m);
    let d = flag_set(bits).difference(flag_set(m));
    if flag_set(bits).subset_of(flag_set(m)) {
        assert(d =~= Set::<u32>::empty());
    }
    if d.is_empty() {
        assert forall|i: u32| flag_set(bits).contains(i) implies flag_set(m).contains(i) by {
            assert(!d.contains(i));
        }
    }
}

/// A value holds every flag of the mask `m` exactly when `m | a == a`.
pub proof fn lemma_holds_mask(a: i32, m: i32)
    ensures
        ((m | a) == a) <==> flag_set(m).subset_of(flag_set(a)),
{
    lemma_flag_set_subset(a, m);
    lemma_bit_algebra(a, a, a, m);
}

/// The flags of `!a & m` are those of the mask `m` that `a` lacks.
pub proof fn lemma_complement_in_mask(a: i32, m: i32)
    ensures
        flag_set(!a & m) == flag_set(m).difference(flag_set(a)),
{
    lemma_flag_set_ops(m, a);
    lemma_bit_algebra(a, a, a, m);
}

// Laws of the flag operations of `Faults` and `StickyFaults`. Each
// operation's contract gives the bits of its result (`insert` gives
// `old | other`, `remove` gives `old & !other`, `toggle` gives
// `old ^ other`, `from_bits_truncate` gives `bits & all`, `complement` gives
// `!bits & all`, `contains` tests `bits & other == other`), so the laws are
// stated once, over those bits; `m` stands for the bits of `all()`.

/// After inserting `b` into `a`, the flags contain `b`.
pub proof fn lemma_insert_then_contains(a: i32, b: i32)
    ensures
        ((a | b) & b) == b,
{
    lemma_bit_algebra(a, b, b, 0i32);
}

/// After removing `b` from `a`, the flags share nothing with `b`, and every
/// flag of `a` that is not in `b` is still there.
pub proof fn lemma_remove_then_disjoint(a: i32, b: i32)
    ensures
        ((a & !b) & b) == 0i32,
        ((a & !b) | (a & b)) == a,
{
    lemma_bit_algebra(a, b, b, 0i32);
}

/// Toggling the same flags twice gives back the original flags.
pub proof fn lemma_toggle_twice(a: i32, b: i32)
    ensures
        ((a ^ b) ^ b) == a,
{
    lemma_bit_algebra(a, b, b, 0i32);
}

/// Setting and then clearing the same flags leaves what removing them leaves.
pub proof fn lemma_set_then_clear(a: i32, b: i32)
    ensures
        ((a | b) & !b) == (a & !b),
{
    lemma_bit_algebra(a, b, b, 0i32);
}

/// `from_bits_truncate` always gives flags that `from_bits` accepts, and
/// `from_bits` accepts exactly the values that truncation leaves unchanged.
pub proof fn lemma_truncate_is_accepted(bits: i32, m: i32)
    ensures
        ((bits & m) & !m) == 0i32,
        ((bits & !m) == 0i32) <==> ((bits & m) == bits),
{
    lemma_bit_algebra(bits, bits, bits, m);
}

/// The complement of the complement is the set of named flags.
pub proof fn lemma_complement_twice(a: i32, m: i32)
    ensures
        (!(!a & m) & m) == (a & m),
{
    lemma_bit_algebra(a, a, a, m);
}

/// `contains` is reflexive and transitive.
pub proof fn lemma_contains_order(a: i32, b: i32, c: i32)
    ensures
        (a & a) == a,
        ((a & b) == b && (b & c) == c) ==> (a & c) == c,
{
    lemma_bit_algebra(a, b, c, 0i32);
}

/// A union contains both operands, and union is commutative.
pub proof fn lemma_union(a: i32, b: i32)
    ensures
        ((a | b) & a) == a,
        ((a | b) & b) == b,
        (a | b) == (b | a),
{
    lemma_bit_algebra(a, b, b, 0i32);
}

/// The names of the flags among the first `n` of `names` whose bits are
/// set in `bits`, in order.
pub open spec fn set_names(bits: i32, names: Seq<Seq<char>>, n: nat) -> Seq<Seq<char>>
    decreases n,
{
    if n == 0 {
        Seq::empty()
    } else {
        let prev = set_names(bits, names, (n - 1) as nat);
        if has_bit(bits, (n - 1) as u32) {
            prev.push(names[n - 1])
        } else {
            prev
        }
    }
}

/// `parts` joined by `" | "`.
pub open spec fn join_parts(parts: Seq<Seq<char>>) -> Seq<char>
    decreases parts.len(),
{
    if parts.len() == 0 {
        Seq::empty()
    } else if parts.len() == 1 {
        parts[0]
    } else {
        join_parts(parts.drop_last()) + " | "@ + parts.last()
    }
}

/// The lower-case hexadecimal digits of `x`, without leading zeros.
pub open spec fn hex_digits(x: nat) -> Seq<char>
    decreases x,
{
    if x < 16 {
        "0123456789abcdef"@.subrange(x as int, x + 1int)
    } else {
        hex_digits(x / 16) + "0123456789abcdef"@.subrange((x % 16) as int, (x % 16) + 1int)
    }
}

/// The text of a set of flags: the names of the set flags among `names`,
/// then the bits outside `all` in hexadecimal after `0x`, joined by
/// `" | "`; `(empty)` when there is nothing to show.
pub open spec fn flags_text(bits: i32, names: Seq<Seq<char>>, all: i32) -> Seq<char> {
    let named = set_names(bits, names, names.len());
    let extra = bits & !all;
    let parts = if extra != 0i32 {
        named.push("0x"@ + hex_digits((extra as u32) as nat))
    } else {
        named
    };
    if parts.len() == 0 {
        "(empty)"@
    } else {
        join_parts(parts)
    }
}

/// Appends the lower-case hexadecimal digits of `x` to `s`.
pub fn append_hex(s: &mut String, x: u32)
    ensures
        final(s)@ == old(s)@ + hex_digits(x as nat),
    decreases x,
{
    proof {
        reveal_strlit("0123456789abcdef");
    }
    let digits = "0123456789abcdef";
    if x >= 16 {
        append_hex(s, x / 16);
    }
    let d = (x % 16) as usize;
    s.append(digits.substring_char(d, d + 1));
}

/// Appends `part` to the text of `parts` joined by `" | "`.
pub proof fn lemma_join_push(parts: Seq<Seq<char>>, part: Seq<char>)
    ensures
        join_parts(parts.push(part)) == if parts.len() == 0 {
            part
        } else {
            join_parts(parts) + " | "@ + part
        },
{
    assert(parts.push(part).drop_last() =~= parts);
}

/// The text of a set of flags (see `flags_text`), with `names` the names of
/// the flags in the order of their bits.
pub fn flags_text_of(bits: i32, names: &[&str], all: i32) -> (r: String)
    requires
        names@.len() <= 32,
    ensures
        r@ == flags_text(bits, names@.map_values(|n: &str| n@), all),
{
    let ghost ns = names@.map_values(|n: &str| n@);
    let mut s = String::new();
    let mut first = true;
    let mut i: usize = 0;
    while i < names.len()
        invariant
            i <= names@.len(),
            names@.len() <= 32,
            ns == names@.map_values(|n: &str| n@),
            s@ == join_parts(set_names(bits, ns, i as nat)),
            first == (set_names(bits, ns, i as nat).len() == 0),
        decreases names@.len() - i,
    {
        let k = i as u32;
        let ghost before = set_names(bits, ns, i as nat);
        if ((bits >> k) & 1i32) == 1i32 {
            proof {
                lemma_join_push(before, ns[i as int]);
            }
            if !first {
                s.append(" | ");
            }
            first = false;
            s.append(names[i]);
            proof {
                assert(set_names(bits, ns, (i + 1) as nat) == before.push(ns[i as int]));
                if before.len() == 0 {
                    assert(s@ =~= ns[i as int]);
                }
            }
        }
        i = i + 1;
    }
    let extra = bits & !all;
    let ghost named = set_names(bits, ns, ns.len());
    if extra != 0 {
        let ghost part = "0x"@ + hex_digits((extra as u32) as nat);
        proof {
            lemma_join_push(named, part);
        }
        if !first {
            s.append(" | ");
        }
        let ghost joined = s@;
        first = false;
        s.append("0x");
        append_hex(&mut s, extra as u32);
        proof {
            assert(s@ =~= joined + part);
            if named.len() == 0 {
                assert(joined =~= Seq::<char>::empty());
                assert(s@ =~= part);
            }
        }
    }
    if first {
        proof {
            assert(s@ =~= Seq::<char>::empty());
        }
        s.append("(empty)");
        proof {
            assert(s@ =~= "(empty)"@);
        }
    }
    s
}

} // verus!
