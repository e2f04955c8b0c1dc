//! Plain-text building blocks for the wire format: character-exact string
//! comparison, decimal rendering of integers, and comma-joined lists.
use vstd::prelude::*;

verus! {

/// Character-exact comparison of two string slices.
pub fn str_eq(a: &str, b: &str) -> (r: bool)
    ensures
        r == (a@ == b@),
{
    let alen = a.unicode_len();
    let blen = b.unicode_len();
    if alen != blen {
        return false;
    }
    let mut i: usize = 0;
    while i < alen
        invariant
            alen == a@.len(),
            blen == b@.len(),
            alen == blen,
            0 <= i <= alen,
            forall|j: int| 0 <= j < i ==> a@[j] == b@[j],
        decreases alen - i,
    {
        let ca = a.get_char(i);
        let cb = b.get_char(i);
        if ca != cb {
            return false;
        }
        i += 1;
    }
    proof {
        assert(a@ =~= b@);
    }
    true
}

/// The character for one decimal digit.
pub open spec fn digit_char(d: int) -> char {
    if d == 0 {
        '0'
    } else if d == 1 {
        '1'
    } else if d == 2 {
        '2'
    } else if d == 3 {
        '3'
    } else if d == 4 {
        '4'
    } else if d == 5 {
        '5'
    } else if d == 6 {
        '6'
    } else if d == 7 {
        '7'
    } else if d == 8 {
        '8'
    } else {
        '9'
    }
}

/// Decimal rendering of a non-negative integer, most significant digit first.
pub open spec fn dec_rep(n: int) -> Seq<char>
    recommends
        n >= 0,
    decreases n,
{
    if n < 10 {
        seq![digit_char(n)]
    } else {
        dec_rep(n / 10).push(digit_char(n % 10))
    }
}

/// Decimal rendering of a signed integer: a leading minus sign when negative.
pub open spec fn dec_rep_i64(i: int) -> Seq<char> {
    if i < 0 {
        seq!['-'] + dec_rep(-i)
    } else {
        dec_rep(i)
    }
}

fn digit_str(d: u64) -> (r: &'static str)
    requires
        d < 10,
    ensures
        r@ == seq![digit_char(d as int)],
{
    let r = match d {
        0 => "0",
        1 => "1",
        2 => "2",
        3 => "3",
        4 => "4",
        5 => "5",
        6 => "6",
        7 => "7",
        8 => "8",
        _ => "9",
    };
    proof {
        reveal_strlit("0");
        reveal_strlit("1");
        reveal_strlit("2");
        reveal_strlit("3");
        reveal_strlit("4");
        reveal_strlit("5");
        reveal_strlit("6");
        reveal_strlit("7");
        reveal_strlit("8");
        reveal_strlit("9");
        assert(r@ =~= seq![digit_char(d as int)]);
    }
    r
}

fn push_dec_u64(s: &mut String, n: u64)
    ensures
        final(s)@ == old(s)@ + dec_rep(n as int),
    decreases n,
{
    if n >= 10 {
        push_dec_u64(s, n / 10);
    }
    let d = n % 10;
    s.append(digit_str(d));
    proof {
        if n >= 10 {
            assert(dec_rep(n as int) =~= dec_rep(n as int / 10) + seq![
                digit_char(n as int % 10),
            ]);
            assert(s@ =~= old(s)@ + dec_rep(n as int));
        } else {
            assert(dec_rep(n as int) =~= seq![digit_char(n as int)]);
            assert(s@ =~= old(s)@ + dec_rep(n as int));
        }
    }
}

/// Decimal text of an unsigned 64-bit value.
pub fn u64_dec_string(n: u64) -> (r: String)
    ensures
        r@ == dec_rep(n as int),
{
    let mut s = String::new();
    push_dec_u64(&mut s, n);
    proof {
        assert(s@ =~= dec_rep(n as int));
    }
    s
}

/// Decimal text of an unsigned 32-bit value.
pub fn u32_dec_string(n: u32) -> (r: String)
    ensures
        r@ == dec_rep(n as int),
{
    u64_dec_string(n as u64)
}

/// Decimal text of a signed 64-bit value.
pub fn i64_dec_string(n: i64) -> (r: String)
    ensures
        r@ == dec_rep_i64(n as int),
{
    if n >= 0 {
        u64_dec_string(n as u64)
    } else {
        let mag_wide: i128 = -(n as i128);
        let mag: u64 = mag_wide as u64;
        proof {
            assert(mag as int == -(n as int));
        }
        let mut s = String::from_str("-");
        push_dec_u64(&mut s, mag);
        proof {
            reveal_strlit("-");
            assert(s@ =~= seq!['-'] + dec_rep(-(n as int)));
        }
        s
    }
}

/// Comma-joined concatenation of a sequence of texts.
pub open spec fn join_texts(v: Seq<Seq<char>>) -> Seq<char>
    decreases v.len(),
{
    if v.len() == 0 {
        Seq::empty()
    } else if v.len() == 1 {
        v[0]
    } else {
        join_texts(v.drop_last()) + seq![','] + v.last()
    }
}

/// The decimal texts of a sequence of signed identifiers.
pub open spec fn i64_texts(v: Seq<i64>) -> Seq<Seq<char>> {
    v.map_values(|x: i64| dec_rep_i64(x as int))
}

/// The character sequences of a sequence of strings.
pub open spec fn str_views(v: Seq<String>) -> Seq<Seq<char>> {
    v.map_values(|s: String| s@)
}

/// Comma-joined decimal list, as sent for identifier filters.
pub fn join_i64_list(v: &Vec<i64>) -> (r: String)
    ensures
        r@ == join_texts(i64_texts(v@)),
{
    let mut s = String::new();
    let mut i: usize = 0;
    while i < v.len()
        invariant
            0 <= i <= v@.len(),
            s@ == join_texts(i64_texts(v@.take(i as int))),
        decreases v@.len() - i,
    {
        if i > 0 {
            s.append(",");
        }
        let t = i64_dec_string(v[i]);
        s.append(t.as_str());
        proof {
            reveal_strlit(",");
            let pre = i64_texts(v@.take(i as int));
            let post = i64_texts(v@.take(i as int + 1));
            assert(post.drop_last() =~= pre);
            assert(post.last() == dec_rep_i64(v@[i as int] as int));
            if i == 0 {
                assert(s@ =~= join_texts(post));
            } else {
                assert(s@ =~= join_texts(pre) + seq![','] + post.last());
                assert(s@ =~= join_texts(post));
            }
        }
        i += 1;
    }
    proof {
        assert(v@.take(v@.len() as int) =~= v@);
    }
    s
}

/// Comma-joined list of names, as sent for index, status and type filters.
pub fn join_str_list(v: &Vec<String>) -> (r: String)
    ensures
        r@ == join_texts(str_views(v@)),
{
    let mut s = String::new();
    let mut i: usize = 0;
    while i < v.len()
        invariant
            0 <= i <= v@.len(),
            s@ == join_texts(str_views(v@.take(i as int))),
        decreases v@.len() - i,
    {
        if i > 0 {
            s.append(",");
        }
        let item = &v[i];
        s.append(item.as_str());
        proof {
            reveal_strlit(",");
            let pre = str_views(v@.take(i as int));
            let post = str_views(v@.take(i as int + 1));
            assert(post.drop_last() =~= pre);
            assert(post.last() == v@[i as int]@);
            if i == 0 {
                assert(s@ =~= join_texts(post));
            } else {
                assert(s@ =~= join_texts(pre) + seq![','] + post.last());
                assert(s@ =~= join_texts(post));
            }
        }
        i += 1;
    }
    proof {
        assert(v@.take(v@.len() as int) =~= v@);
    }
    s
}

} // verus!
