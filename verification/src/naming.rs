use vstd::prelude::*;
use crate::text::{
    chars_of, lemma_decimal_value, lemma_parse_zero_padded, parse_decimal_u32, decimal_u32,
    push_zero_padded, views, zero_padded,
};

verus! {

/// `short_`, the fixed start of every exported file name.
pub open spec fn short_prefix() -> Seq<char> {
    seq!['s', 'h', 'o', 'r', 't', '_']
}

/// `.mp4`, the fixed end of every exported file name.
pub open spec fn mp4_suffix() -> Seq<char> {
    seq!['.', 'm', 'p', '4']
}

/// The number `N` of a file named `short_N.mp4`, where `N` is one or more
/// ASCII digits (leading zeros allowed) denoting a `u32`; `None` for any
/// other name.
pub open spec fn short_number_of(name: Seq<char>) -> Option<u32> {
    if name.len() >= 10 && name.take(6) == short_prefix() && name.skip(name.len() - 4)
        == mp4_suffix() {
        decimal_u32(name.subrange(6, name.len() - 4))
    } else {
        None
    }
}

/// The highest number among the `short_N.mp4` names in `names`, or `0`.
pub open spec fn highest_short(names: Seq<Seq<char>>) -> nat
    decreases names.len(),
{
    if names.len() == 0 {
        0
    } else {
        let m = highest_short(names.drop_last());
        match short_number_of(names.last()) {
            Some(n) => if n > m { n as nat } else { m },
            None => m,
        }
    }
}

/// The file name `short_NNN.mp4`: `n` in decimal, zero-padded to three digits.
pub open spec fn short_name_of(n: nat) -> Seq<char> {
    short_prefix() + zero_padded(n, 3) + mp4_suffix()
}

/// The number in a `short_N.mp4` file name, if the name has that form.
pub fn short_number(name: &str) -> (r: Option<u32>)
    ensures
        r == short_number_of(name@),
{
    let v = chars_of(name);
    let n = v.len();
    if n < 10 {
        return None;
    }
    let prefix_ok = v[0] == 's' && v[1] == 'h' && v[2] == 'o' && v[3] == 'r' && v[4] == 't'
        && v[5] == '_';
    let suffix_ok = v[n - 4] == '.' && v[n - 3] == 'm' && v[n - 2] == 'p' && v[n - 1] == '4';
    proof {
        if prefix_ok {
            assert(v@.take(6) =~= short_prefix());
        } else {
            assert(v@.take(6) != short_prefix()) by {
                if v@.take(6) == short_prefix() {
                    assert(v@.take(6)[0] == v@[0]);
                    assert(v@.take(6)[1] == v@[1]);
                    assert(v@.take(6)[2] == v@[2]);
                    assert(v@.take(6)[3] == v@[3]);
                    assert(v@.take(6)[4] == v@[4]);
                    assert(v@.take(6)[5] == v@[5]);
                }
            }
        }
        if suffix_ok {
            assert(v@.skip(n - 4) =~= mp4_suffix());
        } else {
            assert(v@.skip(n - 4) != mp4_suffix()) by {
                if v@.skip(n - 4) == mp4_suffix() {
                    assert(v@.skip(n - 4)[0] == v@[n - 4]);
                    assert(v@.skip(n - 4)[1] == v@[n - 3]);
                    assert(v@.skip(n - 4)[2] == v@[n - 2]);
                    assert(v@.skip(n - 4)[3] == v@[n - 1]);
                }
            }
        }
    }
    if prefix_ok && suffix_ok {
        parse_decimal_u32(&v, 6, n - 4)
    } else {
        None
    }
}

/// The highest `N` among the names of the form `short_N.mp4`; `0` if none.
pub fn highest_short_number(names: &Vec<String>) -> (m: u32)
    ensures
        m == highest_short(views(names@)),
{
    let mut m: u32 = 0;
    let mut i: usize = 0;
    while i < names.len()
        invariant
            i <= names@.len(),
            m == highest_short(views(names@).take(i as int)),
        decreases names.len() - i,
    {
        let ghost t = views(names@).take(i + 1);
        assert(t.drop_last() =~= views(names@).take(i as int));
        assert(t.last() == names@[i as int]@);
        if let Some(n) = short_number(names[i].as_str()) {
            if n > m {
                m = n;
            }
        }
        i = i + 1;
    }
    assert(views(names@).take(i as int) =~= views(names@));
    m
}

/// The file name `short_NNN.mp4` for `n` (at least three digits).
pub fn short_name(n: u32) -> (s: String)
    ensures
        s@ == short_name_of(n as nat),
{
    let mut s = String::new();
    proof {
        reveal_strlit("short_");
        reveal_strlit(".mp4");
    }
    s.append("short_");
    push_zero_padded(&mut s, n as u64, 3);
    s.append(".mp4");
    assert(s@ =~= short_name_of(n as nat));
    s
}

/// The name of the next export in a directory holding the files `names`:
/// one past the highest existing `short_N.mp4`, so `short_001.mp4` in a
/// directory without such files.
pub fn next_short_name(names: &Vec<String>) -> (s: String)
    requires
        highest_short(views(names@)) < u32::MAX,
    ensures
        s@ == short_name_of(highest_short(views(names@)) + 1),
{
    let m = highest_short_number(names);
    short_name(m + 1)
}

/// The name given to export number `n` is recognised as number `n` again.
pub proof fn lemma_short_name_roundtrip(n: u32)
    ensures
        short_number_of(short_name_of(n as nat)) == Some(n),
{
    let name = short_name_of(n as nat);
    let p = zero_padded(n as nat, 3);
    lemma_decimal_value(n as nat);
    assert(p.len() >= 3);
    assert(name.take(6) =~= short_prefix());
    assert(name.skip(name.len() - 4) =~= mp4_suffix());
    assert(name.subrange(6, name.len() - 4) =~= p);
    lemma_parse_zero_padded(n, 3);
}

/// The highest number bounds every numbered name in the list, and it is `0`
/// or the number of one of them.
pub proof fn lemma_highest_is_max(names: Seq<Seq<char>>)
    ensures
        forall|i: int|
            0 <= i < names.len() ==> (#[trigger] short_number_of(names[i]) matches Some(k) ==> k
                <= highest_short(names)),
        highest_short(names) == 0 || exists|i: int|
            0 <= i < names.len() && #[trigger] short_number_of(names[i]) == Some(
                highest_short(names) as u32,
            ),
        highest_short(names) <= u32::MAX,
    decreases names.len(),
{
    if names.len() > 0 {
        let init = names.drop_last();
        lemma_highest_is_max(init);
        assert forall|i: int|
            0 <= i < names.len() implies (#[trigger] short_number_of(names[i]) matches Some(k)
            ==> k <= highest_short(names)) by {
            if i < names.len() - 1 {
                assert(names[i] == init[i]);
            }
        }
        if highest_short(names) != 0 {
            if highest_short(names) != highest_short(init) {
                assert(short_number_of(names[names.len() - 1]) == Some(
                    highest_short(names) as u32,
                ));
            } else {
                let j = choose|j: int|
                    0 <= j < init.len() && #[trigger] short_number_of(init[j]) == Some(
                        highest_short(init) as u32,
                    );
                assert(names[j] == init[j]);
            }
        }
    }
}

/// The next name is numbered one past every existing `short_N.mp4`, so it is
/// recognised as that number and differs from every name already present.
pub proof fn lemma_next_name_is_fresh(names: Seq<Seq<char>>)
    requires
        highest_short(names) < u32::MAX,
    ensures
        short_number_of(short_name_of(highest_short(names) + 1)) == Some(
            (highest_short(names) + 1) as u32,
        ),
        forall|i: int|
            0 <= i < names.len() ==> (#[trigger] short_number_of(names[i]) matches Some(k) ==> k
                < highest_short(names) + 1),
        forall|i: int| 0 <= i < names.len() ==> #[trigger] names[i] != short_name_of(
            highest_short(names) + 1,
        ),
{
    let h = highest_short(names);
    lemma_highest_is_max(names);
    lemma_short_name_roundtrip((h + 1) as u32);
    assert forall|i: int| 0 <= i < names.len() implies #[trigger] names[i] != short_name_of(
        h + 1,
    ) by {
        if names[i] == short_name_of(h + 1) {
            assert(short_number_of(names[i]) == Some((h + 1) as u32));
        }
    }
}

/// Adding the file `short_name_of(n)` to a directory raises its highest number
/// to `n` if `n` is larger: exporting twice into one directory yields two
/// consecutive numbers.
pub proof fn lemma_highest_after_export(names: Seq<Seq<char>>, n: u32)
    ensures
        highest_short(names.push(short_name_of(n as nat))) == if n > highest_short(names) {
            n as nat
        } else {
            highest_short(names)
        },
{
    lemma_short_name_roundtrip(n);
    assert(names.push(short_name_of(n as nat)).drop_last() =~= names);
}

} // verus!
