//! Semantic-version comparison for the release check.
//!
//! A version string is read as its dot-separated components; the components
//! that are well-formed decimal numerals give, in order, the (major, minor,
//! patch) triple, and triples are compared lexicographically.

use vstd::prelude::*;

verus! {

/// Whether `c` is a decimal digit.
pub open spec fn is_ascii_digit(c: char) -> bool {
    48 <= c as u32 && c as u32 <= 57
}

/// The numeric value of a decimal digit.
pub open spec fn digit_value(c: char) -> nat
    recommends
        is_ascii_digit(c),
{
    (c as u32 - 48) as nat
}

/// Every character of `s` is a decimal digit.
pub open spec fn all_digits(s: Seq<char>) -> bool {
    forall|i: int| 0 <= i < s.len() ==> is_ascii_digit(#[trigger] s[i])
}

/// The value of `s` read as a decimal numeral, most significant digit first.
pub open spec fn dec_value(s: Seq<char>) -> nat
    recommends
        all_digits(s),
    decreases s.len(),
{
    if s.len() == 0 {
        0
    } else {
        dec_value(s.drop_last()) * 10 + digit_value(s.last())
    }
}

/// The digits of a numeral, after at most one leading plus sign.
pub open spec fn unsigned_body(s: Seq<char>) -> Seq<char> {
    if s.len() > 0 && s[0] == '+' {
        s.drop_first()
    } else {
        s
    }
}

/// What one dot-separated component contributes: its value when it is a
/// well-formed numeral that fits in a `u32` (an optional leading `+`, then
/// at least one digit), and nothing otherwise.
pub open spec fn numeric_component(s: Seq<char>) -> Option<u32> {
    let t = unsigned_body(s);
    if t.len() > 0 && all_digits(t) && dec_value(t) <= u32::MAX {
        Some(dec_value(t) as u32)
    } else {
        None
    }
}

/// `s` split at every dot: one part more than there are dots, and parts may
/// be empty.
pub open spec fn split_dots(s: Seq<char>) -> Seq<Seq<char>>
    decreases s.len(),
{
    if s.len() == 0 {
        seq![Seq::<char>::empty()]
    } else {
        let rest = split_dots(s.drop_first());
        if s[0] == '.' {
            seq![Seq::<char>::empty()] + rest
        } else {
            seq![seq![s[0]] + rest[0]] + rest.drop_first()
        }
    }
}

/// The values of the parts that are well-formed numerals, in order.
pub open spec fn numeric_values(parts: Seq<Seq<char>>) -> Seq<u32>
    decreases parts.len(),
{
    if parts.len() == 0 {
        Seq::empty()
    } else {
        let pre = numeric_values(parts.drop_last());
        match numeric_component(parts.last()) {
            Some(v) => pre.push(v),
            None => pre,
        }
    }
}

/// A version string read as (major, minor, patch): the first three numeric
/// dot-separated components, missing ones taken as 0.
pub open spec fn version_triple(s: Seq<char>) -> (u32, u32, u32) {
    let vs = numeric_values(split_dots(s));
    (
        if vs.len() > 0 { vs[0] } else { 0u32 },
        if vs.len() > 1 { vs[1] } else { 0u32 },
        if vs.len() > 2 { vs[2] } else { 0u32 },
    )
}

/// Lexicographic order on (major, minor, patch) triples.
pub open spec fn triple_gt(a: (u32, u32, u32), b: (u32, u32, u32)) -> bool {
    ||| a.0 > b.0
    ||| (a.0 == b.0 && a.1 > b.1)
    ||| (a.0 == b.0 && a.1 == b.1 && a.2 > b.2)
}

/// `latest` names a strictly newer version than `current`.
pub open spec fn spec_is_newer(latest: Seq<char>, current: Seq<char>) -> bool {
    triple_gt(version_triple(latest), version_triple(current))
}

/// A tag with every leading `v` removed, as release tags such as `v1.2.3`
/// carry one.
pub open spec fn spec_trim_v(s: Seq<char>) -> Seq<char>
    decreases s.len(),
{
    if s.len() > 0 && s[0] == 'v' {
        spec_trim_v(s.drop_first())
    } else {
        s
    }
}

/// Splitting a string without a dot gives that one part.
proof fn lemma_split_dots_no_dot(s: Seq<char>)
    requires
        forall|k: int| 0 <= k < s.len() ==> s[k] != '.',
    ensures
        split_dots(s) == seq![s],
    decreases s.len(),
{
    if s.len() == 0 {
        assert(s =~= Seq::<char>::empty());
    } else {
        lemma_split_dots_no_dot(s.drop_first());
        let rest = split_dots(s.drop_first());
        assert(rest == seq![s.drop_first()]);
        assert(seq![s[0]] + rest[0] =~= s);
        assert(rest.drop_first() =~= Seq::<Seq<char>>::empty());
        assert(split_dots(s) =~= seq![s]);
    }
}

/// Splitting at the first dot: the part before it, then the split of what
/// follows it.
proof fn lemma_split_dots_head(s: Seq<char>, i: int)
    requires
        0 <= i < s.len(),
        s[i] == '.',
        forall|k: int| 0 <= k < i ==> s[k] != '.',
    ensures
        split_dots(s) == seq![s.subrange(0, i)] + split_dots(s.skip(i + 1)),
    decreases i,
{
    let s1 = s.drop_first();
    if i == 0 {
        assert(s.subrange(0, 0) =~= Seq::<char>::empty());
        assert(s1 =~= s.skip(1));
    } else {
        assert(s[0] != '.');
        assert(s1[i - 1] == s[i]);
        assert(forall|k: int| 0 <= k < i - 1 ==> s1[k] == s[k + 1]);
        lemma_split_dots_head(s1, i - 1);
        let rest = split_dots(s1);
        assert(rest == seq![s1.subrange(0, i - 1)] + split_dots(s1.skip(i)));
        assert(rest[0] == s1.subrange(0, i - 1));
        assert(seq![s[0]] + s1.subrange(0, i - 1) =~= s.subrange(0, i));
        assert(rest.drop_first() =~= split_dots(s1.skip(i)));
        assert(s1.skip(i) =~= s.skip(i + 1));
        assert(split_dots(s) =~= seq![s.subrange(0, i)] + split_dots(s.skip(i + 1)));
    }
}

/// A decimal numeral's value only grows as digits are appended.
proof fn lemma_dec_value_prefix(t: Seq<char>, m: int)
    requires
        0 <= m <= t.len(),
    ensures
        dec_value(t.subrange(0, m)) <= dec_value(t),
    decreases t.len() - m,
{
    if m == t.len() {
        assert(t.subrange(0, m) =~= t);
    } else {
        assert(t.subrange(0, m + 1).drop_last() =~= t.subrange(0, m));
        assert(dec_value(t.subrange(0, m + 1)) == dec_value(t.subrange(0, m)) * 10
            + digit_value(t.subrange(0, m + 1).last()));
        lemma_dec_value_prefix(t, m + 1);
    }
}

/// The value of the numeral between `from` and `to` in `s`, or nothing where
/// the characters there are not a numeral that fits in a `u32`.
fn parse_component(s: &str, from: usize, to: usize) -> (r: Option<u32>)
    requires
        from <= to <= s@.len(),
    ensures
        r == numeric_component(s@.subrange(from as int, to as int)),
{
    let ghost comp = s@.subrange(from as int, to as int);
    let mut j: usize = from;
    if j < to && s.get_char(j) == '+' {
        j = j + 1;
    }
    let ghost t = s@.subrange(j as int, to as int);
    proof {
        assert(unsigned_body(comp) =~= t);
    }
    if j == to {
        return None;
    }
    let mut acc: u64 = 0;
    let mut k: usize = j;
    while k < to
        invariant
            from <= j <= k <= to <= s@.len(),
            t == s@.subrange(j as int, to as int),
            unsigned_body(comp) == t,
            comp == s@.subrange(from as int, to as int),
            j < to,
            acc <= u32::MAX,
            acc as nat == dec_value(s@.subrange(j as int, k as int)),
            all_digits(s@.subrange(j as int, k as int)),
        decreases to - k,
    {
        let c = s.get_char(k);
        let u: u32 = c as u32;
        if u < 48 || u > 57 {
            proof {
                assert(t[k - j] == s@[k as int]);
                assert(!is_ascii_digit(t[k - j]));
                assert(!all_digits(t));
            }
            return None;
        }
        let d: u32 = u - 48;
        let new_acc: u64 = acc * 10 + (d as u64);
        proof {
            assert(s@.subrange(j as int, k + 1).drop_last() =~= s@.subrange(
                j as int,
                k as int,
            ));
            assert(s@.subrange(j as int, k + 1).last() == c);
            assert(new_acc as nat == dec_value(s@.subrange(j as int, k + 1)));
        }
        if new_acc > u32::MAX as u64 {
            proof {
                assert(s@.subrange(j as int, k + 1) =~= t.subrange(0, k + 1 - j));
                lemma_dec_value_prefix(t, k + 1 - j);
                assert(dec_value(t) > u32::MAX);
            }
            return None;
        }
        proof {
            assert forall|x: int| 0 <= x < k + 1 - j implies is_ascii_digit(
                #[trigger] s@.subrange(j as int, k + 1)[x],
            ) by {
                if x < k - j {
                    assert(s@.subrange(j as int, k + 1)[x] == s@.subrange(j as int, k as int)[x]);
                } else {
                    assert(s@.subrange(j as int, k + 1)[x] == c);
                }
            }
        }
        acc = new_acc;
        k = k + 1;
    }
    proof {
        assert(s@.subrange(j as int, k as int) =~= t);
        assert(t.len() > 0);
    }
    Some(acc as u32)
}

/// The (major, minor, patch) triple that a version string names.
pub fn parse_version_triple(s: &str) -> (t: (u32, u32, u32))
    ensures
        t == version_triple(s@),
{
    let n = s.unicode_len();
    let mut i: usize = 0;
    let mut seg_start: usize = 0;
    let mut vals: Vec<u32> = Vec::new();
    let ghost mut parts_done: Seq<Seq<char>> = Seq::empty();
    proof {
        assert(s@.skip(0) =~= s@);
        assert(parts_done + split_dots(s@.skip(0)) =~= split_dots(s@));
        assert(vals@ =~= numeric_values(parts_done));
    }
    while i < n
        invariant
            0 <= seg_start <= i <= n,
            n == s@.len(),
            split_dots(s@) == parts_done + split_dots(s@.skip(seg_start as int)),
            forall|k: int| seg_start <= k < i ==> s@[k] != '.',
            vals@ == numeric_values(parts_done),
        decreases n - i,
    {
        let c = s.get_char(i);
        if c == '.' {
            let r = parse_component(s, seg_start, i);
            let ghost part = s@.subrange(seg_start as int, i as int);
            proof {
                let u = s@.skip(seg_start as int);
                assert(u[i - seg_start] == s@[i as int]);
                assert forall|k: int| 0 <= k < i - seg_start implies u[k] != '.' by {
                    assert(u[k] == s@[k + seg_start]);
                }
                lemma_split_dots_head(u, i - seg_start);
                assert(u.subrange(0, i - seg_start) =~= part);
                assert(u.skip(i - seg_start + 1) =~= s@.skip(i + 1));
                assert(parts_done + split_dots(u) =~= parts_done.push(part) + split_dots(
                    s@.skip(i + 1),
                ));
                assert(parts_done.push(part).drop_last() =~= parts_done);
            }
            match r {
                Some(v) => vals.push(v),
                None => (),
            }
            proof {
                parts_done = parts_done.push(part);
            }
            seg_start = i + 1;
        }
        i = i + 1;
    }
    let last = parse_component(s, seg_start, n);
    let ghost part = s@.subrange(seg_start as int, n as int);
    proof {
        let u = s@.skip(seg_start as int);
        assert forall|k: int| 0 <= k < u.len() implies u[k] != '.' by {
            assert(u[k] == s@[k + seg_start]);
        }
        lemma_split_dots_no_dot(u);
        assert(u =~= part);
        assert(parts_done + seq![part] =~= parts_done.push(part));
        assert(parts_done.push(part).drop_last() =~= parts_done);
    }
    match last {
        Some(v) => vals.push(v),
        None => (),
    }
    proof {
        parts_done = parts_done.push(part);
        assert(vals@ == numeric_values(split_dots(s@)));
    }
    let v0: u32 = if vals.len() > 0 {
        vals[0]
    } else {
        0
    };
    let v1: u32 = if vals.len() > 1 {
        vals[1]
    } else {
        0
    };
    let v2: u32 = if vals.len() > 2 {
        vals[2]
    } else {
        0
    };
    (v0, v1, v2)
}

/// Whether `latest` names a strictly newer version than `current`, comparing
/// (major, minor, patch) triples lexicographically.
pub fn is_newer(latest: &str, current: &str) -> (r: bool)
    ensures
        r == spec_is_newer(latest@, current@),
{
    let a = parse_version_triple(latest);
    let b = parse_version_triple(current);
    if a.0 != b.0 {
        a.0 > b.0
    } else if a.1 != b.1 {
        a.1 > b.1
    } else {
        a.2 > b.2
    }
}

/// `tag` with every leading `v` removed, as a release tag `v1.2.3` carries
/// one before the version proper.
pub fn trim_v_prefix(tag: &str) -> (r: &str)
    ensures
        r@ == spec_trim_v(tag@),
{
    let n = tag.unicode_len();
    let mut i: usize = 0;
    proof {
        assert(tag@.skip(0) =~= tag@);
    }
    loop
        invariant
            i <= n,
            n == tag@.len(),
            spec_trim_v(tag@) == spec_trim_v(tag@.skip(i as int)),
        ensures
            i <= n,
            spec_trim_v(tag@) == tag@.skip(i as int),
        decreases n - i,
    {
        if i >= n {
            proof {
                assert(tag@.skip(i as int) =~= Seq::<char>::empty());
            }
            break;
        }
        let c = tag.get_char(i);
        if c != 'v' {
            proof {
                assert(tag@.skip(i as int)[0] == c);
            }
            break;
        }
        proof {
            assert(tag@.skip(i as int)[0] == 'v');
            assert(tag@.skip(i as int).drop_first() =~= tag@.skip(i + 1));
        }
        i = i + 1;
    }
    tag.substring_char(i, n)
}

} // verus!
