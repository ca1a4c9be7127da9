//! Choice of the serial ports offered for the ROM and datalog links.

use vstd::prelude::*;
use vstd::string::StringExecFns;
use crate::text::{str_chars, to_ascii_lowercase, contains_chars, starts_with_chars, lower_seq, contains_seq, occurs_at, is_digit};

verus! {

/// Whether a port name looks like a USB or pseudo-terminal serial device
/// (compared without ASCII case).
pub open spec fn likely_serial(name: Seq<char>) -> bool {
    let l = lower_seq(name);
    contains_seq(l, "ttyusb"@) || contains_seq(l, "ttyacm"@) || contains_seq(l, "/dev/pts/"@) || occurs_at(
        l,
        "com"@,
        0,
    ) || contains_seq(l, "cu.usb"@) || contains_seq(l, "usbserial"@)
}

/// Whether a port name is one of the entries that must not be offered.
pub open spec fn problem_entry(name: Seq<char>) -> bool {
    let l = lower_seq(name);
    contains_seq(l, "3d09"@) || contains_seq(l, "flag"@)
}

/// Whether `name` looks like a USB or pseudo-terminal serial device: it
/// contains `ttyusb`, `ttyacm`, `/dev/pts/`, `cu.usb` or `usbserial`, or
/// starts with `com`, ignoring ASCII case.
pub fn is_likely_serial_port(name: &str) -> (b: bool)
    ensures
        b == likely_serial(name@),
        b <==> (contains_seq(lower_seq(name@), "ttyusb"@) || contains_seq(lower_seq(name@), "ttyacm"@)
            || contains_seq(lower_seq(name@), "/dev/pts/"@) || occurs_at(lower_seq(name@), "com"@, 0)
            || contains_seq(lower_seq(name@), "cu.usb"@) || contains_seq(lower_seq(name@), "usbserial"@)),
{
    let lower = to_ascii_lowercase(&str_chars(name));
    contains_chars(&lower, &str_chars("ttyusb")) || contains_chars(&lower, &str_chars("ttyacm"))
        || contains_chars(&lower, &str_chars("/dev/pts/")) || starts_with_chars(&lower, &str_chars("com"))
        || contains_chars(&lower, &str_chars("cu.usb")) || contains_chars(&lower, &str_chars("usbserial"))
}

/// Whether `name` must be hidden from the port lists: it contains `3d09` or
/// `flag`, ignoring ASCII case.
pub fn hide_problem_entry(name: &str) -> (b: bool)
    ensures
        b == problem_entry(name@),
        b <==> (contains_seq(lower_seq(name@), "3d09"@) || contains_seq(lower_seq(name@), "flag"@)),
{
    let lower = to_ascii_lowercase(&str_chars(name));
    contains_chars(&lower, &str_chars("3d09")) || contains_chars(&lower, &str_chars("flag"))
}

/// Law: a name is a likely serial port exactly when, ignoring ASCII case,
/// it contains `ttyusb`, `ttyacm`, `/dev/pts/`, `cu.usb` or `usbserial`, or
/// starts with `com`; each of these alone is enough.
pub proof fn likely_serial_law(name: Seq<char>)
    ensures
        contains_seq(lower_seq(name), "ttyusb"@) ==> likely_serial(name),
        contains_seq(lower_seq(name), "ttyacm"@) ==> likely_serial(name),
        contains_seq(lower_seq(name), "/dev/pts/"@) ==> likely_serial(name),
        occurs_at(lower_seq(name), "com"@, 0) ==> likely_serial(name),
        contains_seq(lower_seq(name), "cu.usb"@) ==> likely_serial(name),
        contains_seq(lower_seq(name), "usbserial"@) ==> likely_serial(name),
        likely_serial(name) ==> (contains_seq(lower_seq(name), "ttyusb"@) || contains_seq(lower_seq(name), "ttyacm"@)
            || contains_seq(lower_seq(name), "/dev/pts/"@) || occurs_at(lower_seq(name), "com"@, 0)
            || contains_seq(lower_seq(name), "cu.usb"@) || contains_seq(lower_seq(name), "usbserial"@)),
{
}

/// Law: a name is hidden from the port lists exactly when, ignoring ASCII
/// case, it contains `3d09` or `flag`.
pub proof fn problem_entry_law(name: Seq<char>)
    ensures
        contains_seq(lower_seq(name), "3d09"@) ==> problem_entry(name),
        contains_seq(lower_seq(name), "flag"@) ==> problem_entry(name),
        problem_entry(name) ==> (contains_seq(lower_seq(name), "3d09"@) || contains_seq(lower_seq(name), "flag"@)),
{
}

/// Lexicographic order of character sequences by code point.
pub open spec fn lex_lt(a: Seq<char>, b: Seq<char>) -> bool
    decreases a.len(),
{
    if a.len() == 0 {
        b.len() > 0
    } else if b.len() == 0 {
        false
    } else if (a[0] as u32) < (b[0] as u32) {
        true
    } else if a[0] == b[0] {
        lex_lt(a.drop_first(), b.drop_first())
    } else {
        false
    }
}

/// `a` sorts before `b` or equals it.
pub open spec fn lex_le(a: Seq<char>, b: Seq<char>) -> bool {
    a == b || lex_lt(a, b)
}

/// The texts of a list of strings.
pub open spec fn views(s: Seq<String>) -> Seq<Seq<char>> {
    s.map_values(|x: String| x@)
}

/// `s` is sorted and holds the same texts as `t`.
pub open spec fn sorted_permutation_of(s: Seq<Seq<char>>, t: Seq<Seq<char>>) -> bool {
    &&& s.to_multiset() == t.to_multiset()
    &&& forall|i: int, j: int| 0 <= i < j < s.len() ==> lex_le(#[trigger] s[i], #[trigger] s[j])
}

/// Sorts strings with `slice::sort` (std), a sort by `Ord for String`,
/// which std documents as lexicographic by byte values, that is by Unicode
/// code points. The result holds the same texts, in ascending order.
#[verifier::external_body]
fn sort_strings(v: &mut Vec<String>)
    ensures
        sorted_permutation_of(views(final(v)@), views(old(v)@)),
{
    v.sort();
}

/// `s` without elements equal to the one before them.
pub open spec fn dedup_spec(s: Seq<Seq<char>>) -> Seq<Seq<char>>
    decreases s.len(),
{
    if s.len() <= 1 {
        s
    } else if s.last() == s[s.len() - 2] {
        dedup_spec(s.drop_last())
    } else {
        dedup_spec(s.drop_last()).push(s.last())
    }
}

fn dedup_strings(v: &Vec<String>) -> (r: Vec<String>)
    ensures
        views(r@) == dedup_spec(views(v@)),
{
    let mut r: Vec<String> = Vec::new();
    let mut i: usize = 0;
    while i < v.len()
        invariant
            i <= v@.len(),
            views(r@) == dedup_spec(views(v@.take(i as int))),
        decreases v@.len() - i,
    {
        proof {
            assert(views(v@.take(i + 1)).drop_last() =~= views(v@.take(i as int)));
            assert(views(v@.take(i + 1)).last() == v@[i as int]@);
        }
        if i == 0 || v[i] != v[i - 1] {
            let s = v[i].clone();
            r.push(s);
            proof {
                assert(views(r@) =~= views(r@.drop_last()).push(r@.last()@));
                if i == 1 {
                    assert(views(v@.take(1)).len() == 1);
                }
            }
        } else {
            proof {
                assert(views(v@.take(i + 1))[i - 1] == v@[i - 1]@);
            }
        }
        i = i + 1;
    }
    proof {
        assert(v@.take(v@.len() as int) =~= v@);
    }
    r
}

proof fn lemma_lex_lt_asymmetric(a: Seq<char>, b: Seq<char>)
    ensures
        lex_lt(a, b) ==> !lex_lt(b, a),
    decreases a.len(),
{
    if a.len() > 0 && b.len() > 0 && a[0] == b[0] {
        lemma_lex_lt_asymmetric(a.drop_first(), b.drop_first());
    }
}

proof fn lemma_lex_le_antisymmetric(a: Seq<char>, b: Seq<char>)
    requires
        lex_le(a, b),
        lex_le(b, a),
    ensures
        a == b,
{
    lemma_lex_lt_asymmetric(a, b);
}

proof fn lemma_dedup_sorted(s: Seq<Seq<char>>)
    requires
        forall|i: int, j: int| 0 <= i < j < s.len() ==> lex_le(#[trigger] s[i], #[trigger] s[j]),
    ensures
        forall|i: int, j: int| 0 <= i < j < dedup_spec(s).len() ==> lex_lt(
            #[trigger] dedup_spec(s)[i],
            #[trigger] dedup_spec(s)[j],
        ),
        forall|x: Seq<char>| dedup_spec(s).contains(x) <==> s.contains(x),
    decreases s.len(),
{
    if s.len() <= 1 {
        assert forall|i: int, j: int| 0 <= i < j < dedup_spec(s).len() implies lex_lt(
            #[trigger] dedup_spec(s)[i],
            #[trigger] dedup_spec(s)[j],
        ) by {}
    } else {
        let p = s.drop_last();
        let n = s.len();
        assert forall|i: int, j: int| 0 <= i < j < p.len() implies lex_le(#[trigger] p[i], #[trigger] p[j]) by {
            assert(p[i] == s[i] && p[j] == s[j]);
        }
        lemma_dedup_sorted(p);
        let d = dedup_spec(p);
        assert forall|x: Seq<char>| s.contains(x) <==> p.contains(x) || x == s.last() by {
            if s.contains(x) {
                let k = choose|k: int| 0 <= k < s.len() && s[k] == x;
                if k < n - 1 {
                    assert(p[k] == x);
                }
            }
            if p.contains(x) {
                let k = choose|k: int| 0 <= k < p.len() && p[k] == x;
                assert(s[k] == x);
            }
            if x == s.last() {
                assert(s[n - 1] == x);
            }
        }
        if s.last() == s[n - 2] {
            assert(p[n - 2] == s.last());
            assert forall|x: Seq<char>| dedup_spec(s).contains(x) <==> s.contains(x) by {
                if x == s.last() {
                    assert(p.contains(x));
                }
            }
        } else {
            let last = s.last();
            assert(dedup_spec(s) == d.push(last));
            assert forall|i: int| 0 <= i < d.len() implies lex_lt(#[trigger] d[i], last) by {
                assert(d.contains(d[i]));
                assert(p.contains(d[i]));
                let k = choose|k: int| 0 <= k < p.len() && p[k] == d[i];
                assert(s[k] == d[i]);
                assert(lex_le(s[k], last));
                if d[i] == last {
                    assert(lex_le(s[k], s[n - 2]));
                    assert(lex_le(s[n - 2], s[n - 1]));
                    lemma_lex_le_antisymmetric(s[n - 2], last);
                }
            }
            assert forall|i: int, j: int| 0 <= i < j < dedup_spec(s).len() implies lex_lt(
                #[trigger] dedup_spec(s)[i],
                #[trigger] dedup_spec(s)[j],
            ) by {
                if j == d.len() {
                    assert(dedup_spec(s)[i] == d[i]);
                    assert(lex_lt(d[i], last));
                } else {
                    assert(dedup_spec(s)[i] == d[i] && dedup_spec(s)[j] == d[j]);
                }
            }
            assert forall|x: Seq<char>| dedup_spec(s).contains(x) <==> s.contains(x) by {
                if dedup_spec(s).contains(x) {
                    let k = choose|k: int| 0 <= k < dedup_spec(s).len() && dedup_spec(s)[k] == x;
                    if k < d.len() {
                        assert(d[k] == x);
                        assert(d.contains(x));
                    }
                }
                if d.contains(x) {
                    let k = choose|k: int| 0 <= k < d.len() && d[k] == x;
                    assert(dedup_spec(s)[k] == x);
                }
                if x == last {
                    assert(dedup_spec(s)[d.len() as int] == x);
                }
            }
        }
    }
}

/// Law: the ports offered are in strictly ascending order, so no port is
/// offered twice, and they are exactly the texts of the list they were
/// chosen from (the reported ports that are not problem entries, and the
/// pseudo-terminals): sorting and removing repeats loses none of them.
pub proof fn offered_ports_sorted_distinct(s: Seq<Seq<char>>, t: Seq<Seq<char>>)
    requires
        sorted_permutation_of(s, t),
    ensures
        forall|i: int, j: int| 0 <= i < j < dedup_spec(s).len() ==> lex_lt(
            #[trigger] dedup_spec(s)[i],
            #[trigger] dedup_spec(s)[j],
        ),
        forall|x: Seq<char>| dedup_spec(s).contains(x) <==> t.contains(x),
{
    lemma_dedup_sorted(s);
    assert forall|x: Seq<char>| s.contains(x) <==> t.contains(x) by {
        vstd::seq_lib::to_multiset_contains(s, x);
        vstd::seq_lib::to_multiset_contains(t, x);
    }
}

/// The elements of `s` that look like serial devices.
pub open spec fn likely_only(s: Seq<Seq<char>>) -> Seq<Seq<char>>
    decreases s.len(),
{
    if s.len() == 0 {
        s
    } else if likely_serial(s.last()) {
        likely_only(s.drop_last()).push(s.last())
    } else {
        likely_only(s.drop_last())
    }
}

/// Law: every preferred port is an offered port that looks like a serial
/// device, and every offered port that looks like one is preferred.
pub proof fn preferred_ports_are_likely_offered(s: Seq<Seq<char>>)
    ensures
        forall|x: Seq<char>| #[trigger] likely_only(s).contains(x) <==> (s.contains(x) && likely_serial(x)),
    decreases s.len(),
{
    if s.len() > 0 {
        let p = s.drop_last();
        let n = s.len();
        preferred_ports_are_likely_offered(p);
        assert forall|x: Seq<char>| s.contains(x) <==> (p.contains(x) || x == s.last()) by {
            if s.contains(x) {
                let k = choose|k: int| 0 <= k < s.len() && s[k] == x;
                if k < n - 1 {
                    assert(p[k] == x);
                }
            }
            if p.contains(x) {
                let k = choose|k: int| 0 <= k < p.len() && p[k] == x;
                assert(s[k] == x);
            }
            if x == s.last() {
                assert(s[n - 1] == x);
            }
        }
        let q = likely_only(p);
        if likely_serial(s.last()) {
            assert(likely_only(s) == q.push(s.last()));
            assert forall|x: Seq<char>| likely_only(s).contains(x) <==> (q.contains(x) || x == s.last()) by {
                if likely_only(s).contains(x) {
                    let k = choose|k: int| 0 <= k < q.len() + 1 && likely_only(s)[k] == x;
                    if k < q.len() {
                        assert(q[k] == x);
                    }
                }
                if q.contains(x) {
                    let k = choose|k: int| 0 <= k < q.len() && q[k] == x;
                    assert(likely_only(s)[k] == x);
                }
                if x == s.last() {
                    assert(likely_only(s)[q.len() as int] == x);
                }
            }
        } else {
            assert(likely_only(s) == q);
        }
        assert forall|x: Seq<char>| #[trigger] likely_only(s).contains(x) <==> (s.contains(x) && likely_serial(x)) by {
            assert(q.contains(x) <==> (p.contains(x) && likely_serial(x)));
            assert(s.contains(x) <==> (p.contains(x) || x == s.last()));
        }
    } else {
        assert forall|x: Seq<char>| #[trigger] likely_only(s).contains(x) <==> (s.contains(x) && likely_serial(x)) by {
            assert(likely_only(s).len() == 0);
        }
    }
}

/// The elements of `s` that are not problem entries.
pub open spec fn visible_only(s: Seq<Seq<char>>) -> Seq<Seq<char>>
    decreases s.len(),
{
    if s.len() == 0 {
        s
    } else if problem_entry(s.last()) {
        visible_only(s.drop_last())
    } else {
        visible_only(s.drop_last()).push(s.last())
    }
}

/// The ports offered: every reported port that is not a problem entry and
/// every pseudo-terminal, sorted without repeats; and among them those that
/// look like serial devices, or all of them when none does.
pub fn select_ports(available: &Vec<String>, pts: &Vec<String>) -> (r: (Vec<String>, Vec<String>))
    ensures
        exists|s: Seq<Seq<char>>| #[trigger] sorted_permutation_of(s, visible_only(views(available@)) + views(pts@))
            && views(r.0@) == dedup_spec(s),
        views(r.1@) == if likely_only(views(r.0@)).len() == 0 {
            views(r.0@)
        } else {
            likely_only(views(r.0@))
        },
{
    let mut all: Vec<String> = Vec::new();
    let mut i: usize = 0;
    while i < available.len()
        invariant
            i <= available@.len(),
            views(all@) == visible_only(views(available@.take(i as int))),
        decreases available@.len() - i,
    {
        proof {
            assert(views(available@.take(i + 1)).drop_last() =~= views(available@.take(i as int)));
            assert(views(available@.take(i + 1)).last() == available@[i as int]@);
        }
        if !hide_problem_entry(available[i].as_str()) {
            all.push(available[i].clone());
            proof {
                assert(views(all@) =~= views(all@.drop_last()).push(all@.last()@));
            }
        }
        i = i + 1;
    }
    proof {
        assert(available@.take(available@.len() as int) =~= available@);
    }
    let ghost visible = views(all@);
    let mut j: usize = 0;
    while j < pts.len()
        invariant
            j <= pts@.len(),
            views(all@) == visible + views(pts@.take(j as int)),
        decreases pts@.len() - j,
    {
        let ghost before = all@;
        all.push(pts[j].clone());
        proof {
            assert(views(all@) =~= views(before).push(pts@[j as int]@));
            assert(views(pts@.take(j + 1)) =~= views(pts@.take(j as int)).push(pts@[j as int]@));
            assert(views(all@) =~= visible + views(pts@.take(j + 1)));
        }
        j = j + 1;
    }
    proof {
        assert(pts@.take(pts@.len() as int) =~= pts@);
    }
    let ghost unsorted = views(all@);
    sort_strings(&mut all);
    let ghost sorted = views(all@);
    let all = dedup_strings(&all);
    let mut preferred: Vec<String> = Vec::new();
    let mut k: usize = 0;
    while k < all.len()
        invariant
            k <= all@.len(),
            views(preferred@) == likely_only(views(all@.take(k as int))),
        decreases all@.len() - k,
    {
        proof {
            assert(views(all@.take(k + 1)).drop_last() =~= views(all@.take(k as int)));
            assert(views(all@.take(k + 1)).last() == all@[k as int]@);
        }
        if is_likely_serial_port(all[k].as_str()) {
            preferred.push(all[k].clone());
            proof {
                assert(views(preferred@) =~= views(preferred@.drop_last()).push(preferred@.last()@));
            }
        }
        k = k + 1;
    }
    proof {
        assert(all@.take(all@.len() as int) =~= all@);
        assert(sorted_permutation_of(sorted, visible_only(views(available@)) + views(pts@)));
    }
    if preferred.len() == 0 {
        let mut copy: Vec<String> = Vec::new();
        let mut m: usize = 0;
        while m < all.len()
            invariant
                m <= all@.len(),
                views(copy@) == views(all@.take(m as int)),
            decreases all@.len() - m,
        {
            let ghost before = copy@;
            copy.push(all[m].clone());
            proof {
                assert(views(copy@) =~= views(before).push(all@[m as int]@));
                assert(views(all@.take(m + 1)) =~= views(all@.take(m as int)).push(all@[m as int]@));
            }
            m = m + 1;
        }
        proof {
            assert(all@.take(all@.len() as int) =~= all@);
        }
        (all, copy)
    } else {
        (all, preferred)
    }
}


/// Every character is an ASCII digit (true of the empty text).
pub open spec fn all_digits(s: Seq<char>) -> bool {
    forall|i: int| 0 <= i < s.len() ==> is_digit(#[trigger] s[i])
}

/// The device paths of the numeric entries of `/dev/pts`.
pub open spec fn pts_paths(names: Seq<Seq<char>>) -> Seq<Seq<char>>
    decreases names.len(),
{
    if names.len() == 0 {
        Seq::empty()
    } else if all_digits(names.last()) {
        pts_paths(names.drop_last()).push("/dev/pts/"@ + names.last())
    } else {
        pts_paths(names.drop_last())
    }
}

fn is_numeric(name: &str) -> (b: bool)
    ensures
        b == all_digits(name@),
{
    let v = str_chars(name);
    let mut i: usize = 0;
    while i < v.len()
        invariant
            i <= v@.len(),
            v@ == name@,
            forall|k: int| 0 <= k < i ==> is_digit(#[trigger] v@[k]),
        decreases v@.len() - i,
    {
        if !('0' <= v[i] && v[i] <= '9') {
            return false;
        }
        i = i + 1;
    }
    true
}

/// The pseudo-terminal ports among the entry names of `/dev/pts`: the
/// numeric names (the others, such as `ptmx`, are no serial endpoints) as
/// `/dev/pts/<name>`, sorted.
pub fn list_pts_ports(names: &Vec<String>) -> (r: Vec<String>)
    ensures
        sorted_permutation_of(views(r@), pts_paths(views(names@))),
{
    let mut out: Vec<String> = Vec::new();
    let mut i: usize = 0;
    while i < names.len()
        invariant
            i <= names@.len(),
            views(out@) == pts_paths(views(names@.take(i as int))),
        decreases names@.len() - i,
    {
        proof {
            assert(views(names@.take(i + 1)).drop_last() =~= views(names@.take(i as int)));
            assert(views(names@.take(i + 1)).last() == names@[i as int]@);
        }
        if is_numeric(names[i].as_str()) {
            let mut path = String::new();
            path.append("/dev/pts/");
            path.append(names[i].as_str());
            let ghost before = out@;
            out.push(path);
            proof {
                assert(views(out@) =~= views(before).push(out@.last()@));
            }
        }
        i = i + 1;
    }
    proof {
        assert(names@.take(names@.len() as int) =~= names@);
    }
    sort_strings(&mut out);
    out
}

} // verus!
