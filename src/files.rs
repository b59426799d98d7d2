//! Ordering of directory listings sent over the relay, and the shape of
//! network scan results.

use vstd::prelude::*;
use vstd::multiset::{group_multiset_axioms, lemma_multiset_empty_len, Multiset};
use vstd::seq_lib::*;

verus! {

/// Metadata of one directory entry.
#[derive(Debug)]
pub struct FileEntry {
    pub name: String,
    pub path: String,
    pub is_dir: bool,
    pub size: u64,
    /// Last modification, Unix seconds, when known.
    pub modified: Option<u64>,
}

/// Lexicographic order of names, character by character (the order of their
/// UTF-8 bytes).
pub open spec fn name_lt(a: Seq<char>, b: Seq<char>) -> bool
    decreases a.len(),
{
    if a.len() == 0 {
        b.len() > 0
    } else if b.len() == 0 {
        false
    } else if a[0] != b[0] {
        (a[0] as int) < (b[0] as int)
    } else {
        name_lt(a.drop_first(), b.drop_first())
    }
}

proof fn lemma_name_lt_asymmetric(a: Seq<char>, b: Seq<char>)
    ensures
        name_lt(a, b) ==> !name_lt(b, a),
    decreases a.len(),
{
    if a.len() > 0 && b.len() > 0 && a[0] == b[0] {
        lemma_name_lt_asymmetric(a.drop_first(), b.drop_first());
    }
}

proof fn lemma_name_lt_suffix(a: Seq<char>, b: Seq<char>, i: int)
    requires
        0 <= i <= a.len(),
        i <= b.len(),
        a.subrange(0, i) == b.subrange(0, i),
    ensures
        name_lt(a, b) == name_lt(a.subrange(i, a.len() as int), b.subrange(i, b.len() as int)),
    decreases i,
{
    if i > 0 {
        assert(a[0] == a.subrange(0, i)[0]);
        assert(b[0] == b.subrange(0, i)[0]);
        let a1 = a.drop_first();
        let b1 = b.drop_first();
        assert(a1.subrange(0, i - 1) =~= a.subrange(0, i).drop_first());
        assert(b1.subrange(0, i - 1) =~= b.subrange(0, i).drop_first());
        lemma_name_lt_suffix(a1, b1, i - 1);
        assert(a1.subrange(i - 1, a1.len() as int) =~= a.subrange(i, a.len() as int));
        assert(b1.subrange(i - 1, b1.len() as int) =~= b.subrange(i, b.len() as int));
    } else {
        assert(a.subrange(0, a.len() as int) =~= a);
        assert(b.subrange(0, b.len() as int) =~= b);
    }
}

/// True when name `a` sorts before name `b`.
pub fn name_less(a: &str, b: &str) -> (r: bool)
    ensures
        r == name_lt(a@, b@),
{
    let n = a.unicode_len();
    let m = b.unicode_len();
    let mut i: usize = 0;
    while i < n && i < m && a.get_char(i) == b.get_char(i)
        invariant
            n == a@.len(),
            m == b@.len(),
            i <= n,
            i <= m,
            a@.subrange(0, i as int) == b@.subrange(0, i as int),
        decreases n - i,
    {
        assert(a@.subrange(0, i + 1) =~= a@.subrange(0, i as int).push(a@[i as int]));
        assert(b@.subrange(0, i + 1) =~= b@.subrange(0, i as int).push(b@[i as int]));
        i = i + 1;
    }
    proof {
        lemma_name_lt_suffix(a@, b@, i as int);
    }
    let ghost sa = a@.subrange(i as int, n as int);
    let ghost sb = b@.subrange(i as int, m as int);
    if i == n {
        assert(sa.len() == 0);
        i < m
    } else if i == m {
        false
    } else {
        assert(sa[0] == a@[i as int] && sb[0] == b@[i as int]);
        (a.get_char(i) as u32) < (b.get_char(i) as u32)
    }
}

/// Listing order: directories before files, then by name.
pub open spec fn entry_before(a: FileEntry, b: FileEntry) -> bool {
    (a.is_dir && !b.is_dir) || (a.is_dir == b.is_dir && name_lt(a.name@, b.name@))
}

/// No adjacent pair of `s` is out of listing order.
pub open spec fn listing_sorted(s: Seq<FileEntry>) -> bool {
    forall|i: int| 1 <= i < s.len() ==> !entry_before(#[trigger] s[i], s[i - 1])
}

/// `a` may come before `b` in a listing: a directory before a file, or the
/// same kind with a name not after `b`'s.
pub open spec fn listed_in_order(a: FileEntry, b: FileEntry) -> bool {
    (a.is_dir && !b.is_dir) || (a.is_dir == b.is_dir && (name_lt(a.name@, b.name@) || a.name@ == b.name@))
}

fn before(a: &FileEntry, b: &FileEntry) -> (r: bool)
    ensures
        r == entry_before(*a, *b),
{
    if a.is_dir && !b.is_dir {
        true
    } else if a.is_dir == b.is_dir {
        name_less(a.name.as_str(), b.name.as_str())
    } else {
        false
    }
}

/// Sorts a listing: directories first, then files, each group by name; entries
/// that tie keep their order. The result is a permutation of the input.
pub fn sort_listing(entries: Vec<FileEntry>) -> (r: Vec<FileEntry>)
    ensures
        r@.to_multiset() == entries@.to_multiset(),
        r@.len() == entries@.len(),
        listing_sorted(r@),
        forall|i: int, j: int| 0 <= i < j < r@.len() ==> listed_in_order(r@[i], r@[j]),
        distinct_keys(entries@) ==> distinct_keys(r@),
{
    broadcast use to_multiset_remove, to_multiset_insert, to_multiset_len, group_multiset_axioms, lemma_multiset_empty_len;
    let ghost original = entries@;
    let mut rest = entries;
    let mut out: Vec<FileEntry> = Vec::new();
    proof {
        assert(out@.to_multiset().len() == 0);
        assert(out@.to_multiset().add(rest@.to_multiset()) =~= rest@.to_multiset());
    }
    while rest.len() > 0
        invariant
            out@.to_multiset().add(rest@.to_multiset()) == original.to_multiset(),
            listing_sorted(out@),
        decreases rest@.len(),
    {
        let ghost rest0 = rest@;
        let e = rest.remove(0);
        proof {
            assert(rest0.remove(0) == rest@);
        }
        let mut p: usize = 0;
        while p < out.len() && !before(&e, &out[p])
            invariant
                p <= out@.len(),
                listing_sorted(out@),
                forall|j: int| 0 <= j < p ==> !entry_before(e, #[trigger] out@[j]),
            decreases out@.len() - p,
        {
            p = p + 1;
        }
        let ghost o0 = out@;
        let ghost ev = e;
        out.insert(p, e);
        proof {
            let o1 = out@;
            assert(o1 == o0.insert(p as int, ev));
            assert forall|i: int| 1 <= i < o1.len() implies !entry_before(
                #[trigger] o1[i],
                o1[i - 1],
            ) by {
                if i < p {
                    assert(o1[i] == o0[i] && o1[i - 1] == o0[i - 1]);
                } else if i == p {
                    assert(o1[i] == ev && o1[i - 1] == o0[i - 1]);
                } else if i == p + 1 {
                    assert(o1[i - 1] == ev && o1[i] == o0[i - 1]);
                    assert(entry_before(ev, o0[i - 1]));
                    lemma_name_lt_asymmetric(ev.name@, o0[i - 1].name@);
                } else {
                    assert(o1[i - 1] == o0[i - 2] && o1[i] == o0[i - 1]);
                }
            }
            to_multiset_insert(o0, p as int, ev);
            assert(o1.to_multiset() == o0.to_multiset().insert(ev));
            assert(rest0[0] == ev);
            assert(rest0.contains(ev));
            to_multiset_contains(rest0, ev);
            to_multiset_remove(rest0, 0);
            assert(rest@.to_multiset() == rest0.to_multiset().remove(ev));
            assert(rest0.to_multiset().count(ev) > 0);
            assert(rest0.to_multiset() =~= rest@.to_multiset().insert(ev));
            assert(out@.to_multiset().add(rest@.to_multiset()) =~= o0.to_multiset().add(
                rest0.to_multiset(),
            ));
        }
    }
    proof {
        assert(rest@.to_multiset().len() == 0);
        assert(rest@.to_multiset() =~= Multiset::empty());
        assert(out@.to_multiset().add(Multiset::empty()) =~= out@.to_multiset());
        assert(out@.to_multiset().len() == out@.len());
        assert(original.to_multiset().len() == original.len());
        lemma_sorted_pairwise(out@);
        assert forall|i: int, j: int| 0 <= i < j < out@.len() implies listed_in_order(out@[i], out@[j]) by {
            let a = out@[i];
            let b = out@[j];
            assert(!entry_before(b, a));
            if a.is_dir == b.is_dir && a.name@ != b.name@ {
                lemma_name_lt_total(a.name@, b.name@);
            }
        }
        if distinct_keys(original) {
            lemma_permutation_keeps_distinct_keys(original, out@);
        }
    }
    out
}

proof fn lemma_name_lt_transitive(a: Seq<char>, b: Seq<char>, c: Seq<char>)
    requires
        name_lt(a, b),
        name_lt(b, c),
    ensures
        name_lt(a, c),
    decreases a.len(),
{
    if a.len() > 0 && b.len() > 0 && c.len() > 0 && a[0] == b[0] && b[0] == c[0] {
        lemma_name_lt_transitive(a.drop_first(), b.drop_first(), c.drop_first());
    }
}

proof fn lemma_name_lt_total(a: Seq<char>, b: Seq<char>)
    requires
        a != b,
    ensures
        name_lt(a, b) || name_lt(b, a),
    decreases a.len(),
{
    if a.len() > 0 && b.len() > 0 && a[0] == b[0] {
        if a.drop_first() == b.drop_first() {
            assert(a =~= seq![a[0]] + a.drop_first());
            assert(b =~= seq![b[0]] + b.drop_first());
            assert(a =~= b);
        }
        lemma_name_lt_total(a.drop_first(), b.drop_first());
    } else if a.len() > 0 && b.len() > 0 {
        assert(a[0] as int != b[0] as int);
    } else if a.len() == 0 && b.len() == 0 {
        assert(a =~= b);
    }
}

/// The sort key of an entry: directory flag and name.
pub open spec fn entry_key(e: FileEntry) -> (bool, Seq<char>) {
    (e.is_dir, e.name@)
}

/// No two entries of `s` share a sort key (as in one directory, where names are unique).
pub open spec fn distinct_keys(s: Seq<FileEntry>) -> bool {
    forall|i: int, j: int|
        0 <= i < s.len() && 0 <= j < s.len() && i != j ==> entry_key(s[i]) != entry_key(s[j])
}

proof fn lemma_not_before_transitive(x: FileEntry, y: FileEntry, z: FileEntry)
    requires
        !entry_before(y, x),
        !entry_before(z, y),
    ensures
        !entry_before(z, x),
{
    if entry_before(z, x) {
        if x.is_dir == y.is_dir && y.is_dir == z.is_dir {
            if x.name@ != y.name@ {
                lemma_name_lt_total(x.name@, y.name@);
            }
            if y.name@ != z.name@ {
                lemma_name_lt_total(y.name@, z.name@);
            }
            if x.name@ != y.name@ && y.name@ != z.name@ {
                lemma_name_lt_transitive(z.name@, x.name@, y.name@);
            }
        }
    }
}

proof fn lemma_sorted_pairwise(s: Seq<FileEntry>)
    requires
        listing_sorted(s),
    ensures
        forall|i: int, j: int| 0 <= i < j < s.len() ==> !entry_before(s[j], s[i]),
    decreases s.len(),
{
    if s.len() > 1 {
        let t = s.drop_last();
        assert(listing_sorted(t)) by {
            assert forall|i: int| 1 <= i < t.len() implies !entry_before(#[trigger] t[i], t[i - 1]) by {
                assert(t[i] == s[i] && t[i - 1] == s[i - 1]);
            }
        }
        lemma_sorted_pairwise(t);
        assert forall|i: int, j: int| 0 <= i < j < s.len() implies !entry_before(s[j], s[i]) by {
            if j < s.len() - 1 {
                assert(t[i] == s[i] && t[j] == s[j]);
            } else if i < j - 1 {
                assert(t[i] == s[i] && t[j - 1] == s[j - 1]);
                assert(!entry_before(s[j], s[j - 1]));
                lemma_not_before_transitive(s[i], s[j - 1], s[j]);
            }
        }
    }
}

proof fn lemma_sorted_unique(s1: Seq<FileEntry>, s2: Seq<FileEntry>)
    requires
        forall|i: int, j: int| 0 <= i < j < s1.len() ==> !entry_before(s1[j], s1[i]),
        forall|i: int, j: int| 0 <= i < j < s2.len() ==> !entry_before(s2[j], s2[i]),
        s1.to_multiset() == s2.to_multiset(),
        distinct_keys(s1),
    ensures
        s1 == s2,
    decreases s1.len(),
{
    broadcast use to_multiset_contains, to_multiset_len, to_multiset_remove;
    assert(s1.len() == s2.len()) by {
        assert(s1.to_multiset().len() == s1.len());
        assert(s2.to_multiset().len() == s2.len());
    }
    if s1.len() > 0 {
        let a = s1[0];
        let b = s2[0];
        assert(s2.contains(a)) by {
            assert(s1.contains(a));
            assert(s1.to_multiset().count(a) > 0);
        }
        assert(s1.contains(b)) by {
            assert(s2.contains(b));
            assert(s2.to_multiset().count(b) > 0);
        }
        let k = choose|k: int| 0 <= k < s1.len() && s1[k] == b;
        let m = choose|m: int| 0 <= m < s2.len() && s2[m] == a;
        lemma_name_lt_asymmetric(a.name@, a.name@);
        lemma_name_lt_asymmetric(b.name@, b.name@);
        assert(!entry_before(b, a)) by {
            if k > 0 {
                assert(!entry_before(s1[k], s1[0]));
            }
        }
        assert(!entry_before(a, b)) by {
            if m > 0 {
                assert(!entry_before(s2[m], s2[0]));
            }
        }
        assert(entry_key(a) == entry_key(b)) by {
            if a.is_dir == b.is_dir && a.name@ != b.name@ {
                lemma_name_lt_total(a.name@, b.name@);
            }
        }
        assert(k == 0);
        assert(a == b);
        let t1 = s1.drop_first();
        let t2 = s2.drop_first();
        assert(t1 == s1.remove(0));
        assert(t2 == s2.remove(0));
        assert(t1.to_multiset() == t2.to_multiset());
        assert forall|i: int, j: int| 0 <= i < j < t1.len() implies !entry_before(t1[j], t1[i]) by {
            assert(t1[i] == s1[i + 1] && t1[j] == s1[j + 1]);
        }
        assert forall|i: int, j: int| 0 <= i < j < t2.len() implies !entry_before(t2[j], t2[i]) by {
            assert(t2[i] == s2[i + 1] && t2[j] == s2[j + 1]);
        }
        assert forall|i: int, j: int|
            0 <= i < t1.len() && 0 <= j < t1.len() && i != j implies entry_key(t1[i]) != entry_key(
            t1[j],
        ) by {
            assert(t1[i] == s1[i + 1] && t1[j] == s1[j + 1]);
        }
        lemma_sorted_unique(t1, t2);
        assert(s1 =~= seq![a] + t1);
        assert(s2 =~= seq![b] + t2);
    }
}

proof fn lemma_count_two(s: Seq<FileEntry>, i: int, j: int)
    requires
        0 <= i < s.len(),
        0 <= j < s.len(),
        i != j,
        s[i] == s[j],
    ensures
        s.to_multiset().count(s[i]) >= 2,
{
    broadcast use to_multiset_remove, to_multiset_contains, group_multiset_axioms;
    let t = s.remove(i);
    let j2 = if j < i { j } else { j - 1 };
    assert(t[j2] == s[j]);
    assert(t.contains(s[i]));
    assert(t.to_multiset().count(s[i]) > 0);
    assert(t.to_multiset() == s.to_multiset().remove(s[i]));
}

proof fn lemma_two_indices(s: Seq<FileEntry>, v: FileEntry)
    requires
        s.to_multiset().count(v) >= 2,
    ensures
        exists|a: int, b: int| 0 <= a < s.len() && 0 <= b < s.len() && a != b && s[a] == v && s[b] == v,
{
    broadcast use to_multiset_remove, to_multiset_contains, group_multiset_axioms;
    assert(s.contains(v));
    let a = choose|a: int| 0 <= a < s.len() && s[a] == v;
    let t = s.remove(a);
    assert(t.to_multiset() == s.to_multiset().remove(v));
    assert(t.to_multiset().count(v) >= 1);
    assert(t.contains(v));
    let c = choose|c: int| 0 <= c < t.len() && t[c] == v;
    let b = if c < a { c } else { c + 1 };
    assert(s[b] == t[c]);
}

/// Rearranging entries keeps their keys distinct.
proof fn lemma_permutation_keeps_distinct_keys(s1: Seq<FileEntry>, s2: Seq<FileEntry>)
    requires
        s1.to_multiset() == s2.to_multiset(),
        distinct_keys(s1),
    ensures
        distinct_keys(s2),
{
    broadcast use to_multiset_contains;
    assert forall|i: int, j: int|
        0 <= i < s2.len() && 0 <= j < s2.len() && i != j implies entry_key(s2[i]) != entry_key(s2[j]) by {
        if entry_key(s2[i]) == entry_key(s2[j]) {
            if s2[i] == s2[j] {
                lemma_count_two(s2, i, j);
                lemma_two_indices(s1, s2[i]);
            } else {
                assert(s2.contains(s2[i]) && s2.contains(s2[j]));
                to_multiset_contains(s2, s2[i]);
                to_multiset_contains(s2, s2[j]);
                to_multiset_contains(s1, s2[i]);
                to_multiset_contains(s1, s2[j]);
                assert(s1.contains(s2[i]) && s1.contains(s2[j]));
                let a = choose|a: int| 0 <= a < s1.len() && s1[a] == s2[i];
                let b = choose|b: int| 0 <= b < s1.len() && s1[b] == s2[j];
                assert(a != b);
            }
        }
    }
}

/// Listing a directory again, with the entries read in any order, gives the same
/// sequence: two results of `sort_listing` on the same entries, whose names are
/// unique within each kind, are equal.
pub proof fn lemma_sort_listing_repeatable(
    in1: Seq<FileEntry>,
    in2: Seq<FileEntry>,
    out1: Seq<FileEntry>,
    out2: Seq<FileEntry>,
)
    requires
        in1.to_multiset() == in2.to_multiset(),
        distinct_keys(in1),
        out1.to_multiset() == in1.to_multiset(),
        out2.to_multiset() == in2.to_multiset(),
        listing_sorted(out1),
        listing_sorted(out2),
    ensures
        out1 == out2,
{
    lemma_permutation_keeps_distinct_keys(in1, out1);
    lemma_listing_order_unique(out1, out2);
}

/// Listing one directory twice gives the same sequence, whatever order the
/// entries were read in: two sorted listings of the same entries, whose names
/// are unique within each kind, are equal.
pub proof fn lemma_listing_order_unique(s1: Seq<FileEntry>, s2: Seq<FileEntry>)
    requires
        listing_sorted(s1),
        listing_sorted(s2),
        s1.to_multiset() == s2.to_multiset(),
        distinct_keys(s1),
    ensures
        s1 == s2,
{
    lemma_sorted_pairwise(s1);
    lemma_sorted_pairwise(s2);
    lemma_sorted_unique(s1, s2);
}

/// A host found by a subnet scan.
#[derive(Debug)]
pub struct DiscoveredDevice {
    pub ip: String,
    pub open_ports: Vec<u16>,
    /// Port 8080 is open: an agent is running there.
    pub has_agent: bool,
}

/// Port on which a running agent answers.
pub const AGENT_PORT: u16 = 8080;

/// Ports probed on each host, in order.
pub fn probe_ports() -> (r: Vec<u16>)
    ensures
        r@ == seq![22u16, 80u16, 8080u16],
{
    let mut r: Vec<u16> = Vec::new();
    r.push(22);
    r.push(80);
    r.push(8080);
    assert(r@ =~= seq![22u16, 80u16, 8080u16]);
    r
}

/// The scan report for a host: nothing when no port is open, otherwise the
/// host with its open ports, flagged as an agent when port 8080 is among them.
pub fn discovered(ip: String, open_ports: Vec<u16>) -> (r: Option<DiscoveredDevice>)
    ensures
        open_ports@.len() == 0 ==> r is None,
        open_ports@.len() > 0 ==> r is Some && r->Some_0.ip@ == ip@ && r->Some_0.open_ports@
            == open_ports@ && r->Some_0.has_agent == open_ports@.contains(AGENT_PORT),
{
    if open_ports.len() == 0 {
        return None;
    }
    let mut has_agent = false;
    let mut i: usize = 0;
    while i < open_ports.len()
        invariant
            i <= open_ports@.len(),
            has_agent == exists|j: int| 0 <= j < i && open_ports@[j] == AGENT_PORT,
        decreases open_ports@.len() - i,
    {
        if open_ports[i] == AGENT_PORT {
            has_agent = true;
        }
        i = i + 1;
    }
    Some(DiscoveredDevice { ip, open_ports, has_agent })
}

} // verus!
