//! Stable sorting, the order of relays by ping, and the order of network
//! interface names.

use vstd::prelude::*;
use vstd::string::*;

use crate::server::Server;
use crate::text::{trim, trim_string};
use crate::view::ServerView;

verus! {

/// Values with a total preorder: `sorts_before_eq` is total and transitive.
pub trait Ordered: Sized {
    spec fn sorts_before_eq(&self, other: &Self) -> bool;

    proof fn lemma_total(a: &Self, b: &Self)
        ensures
            a.sorts_before_eq(b) || b.sorts_before_eq(a),
    ;

    proof fn lemma_transitive(a: &Self, b: &Self, c: &Self)
        requires
            a.sorts_before_eq(b),
            b.sorts_before_eq(c),
        ensures
            a.sorts_before_eq(c),
    ;

    fn before_eq(&self, other: &Self) -> (r: bool)
        ensures
            r == self.sorts_before_eq(other),
    ;
}

/// Whether `j` occurs in `s`.
pub open spec fn occurs(s: Seq<int>, j: int) -> bool {
    exists|k: int| 0 <= k < s.len() && #[trigger] s[k] == j
}

/// `output` is `input` reordered by the permutation `ord` (the element at
/// position `k` of `output` comes from position `ord[k]` of `input`), in
/// non-decreasing order, with elements that sort alike kept in the order
/// they had in `input`.
pub open spec fn is_stable_sort<T: Ordered>(input: Seq<T>, output: Seq<T>, ord: Seq<int>) -> bool {
    let n = input.len();
    &&& output.len() == n
    &&& ord.len() == n
    &&& forall|k: int| 0 <= k < n ==> 0 <= #[trigger] ord[k] < n
    &&& forall|k1: int, k2: int| 0 <= k1 < k2 < n ==> #[trigger] ord[k1] != #[trigger] ord[k2]
    &&& forall|j: int| 0 <= j < n ==> #[trigger] occurs(ord, j)
    &&& forall|k: int| 0 <= k < n ==> #[trigger] output[k] == input[ord[k]]
    &&& forall|k1: int, k2: int|
        #![trigger output[k1], output[k2]]
        0 <= k1 < k2 < n ==> output[k1].sorts_before_eq(&output[k2])
    &&& forall|k1: int, k2: int|
        #![trigger output[k1], output[k2]]
        0 <= k1 < k2 < n && output[k2].sorts_before_eq(&output[k1])
            ==> ord[k1] < ord[k2]
}

/// `output` is a stable sort of `input`.
pub open spec fn is_stable_sorting<T: Ordered>(input: Seq<T>, output: Seq<T>) -> bool {
    exists|ord: Seq<int>| #[trigger] is_stable_sort(input, output, ord)
}

/// Sorts `items` stably.
pub fn stable_sort<T: Ordered>(items: Vec<T>) -> (out: Vec<T>)
    ensures
        is_stable_sorting(items@, out@),
{
    let mut v = items;
    let n = v.len();
    let ghost input = v@;
    let ghost mut ord: Seq<int> = Seq::new(n as nat, |k: int| k);
    assert forall|j: int| 0 <= j < n implies #[trigger] occurs(ord, j) by {
        assert(ord[j] == j);
    }
    let mut i: usize = 0;
    while i < n
        invariant
            v@.len() == n,
            ord.len() == n,
            input.len() == n,
            input == items@,
            i <= n,
            forall|k: int| 0 <= k < n ==> 0 <= #[trigger] ord[k] < n,
            forall|k1: int, k2: int| 0 <= k1 < k2 < n ==> #[trigger] ord[k1] != #[trigger] ord[k2],
            forall|j: int| 0 <= j < n ==> #[trigger] occurs(ord, j),
            forall|k: int| 0 <= k < n ==> #[trigger] v@[k] == input[ord[k]],
            forall|k: int| i <= k < n ==> #[trigger] ord[k] == k,
            forall|k: int| 0 <= k < i ==> #[trigger] ord[k] < i,
            forall|k1: int, k2: int|
                #![trigger v@[k1], v@[k2]]
                0 <= k1 < k2 < i ==> v@[k1].sorts_before_eq(&v@[k2]),
            forall|k1: int, k2: int|
                #![trigger v@[k1], v@[k2]]
                0 <= k1 < k2 < i && v@[k2].sorts_before_eq(&v@[k1])
                    ==> ord[k1] < ord[k2],
        decreases n - i,
    {
        let ghost v0 = v@;
        let ghost ord0 = ord;
        let x = v.remove(i);
        let ghost vr = v@;
        assert(vr == v0.remove(i as int));
        let mut p: usize = i;
        while p > 0 && !v[p - 1].before_eq(&x)
            invariant
                p <= i,
                i < n,
                v@ == vr,
                vr.len() == n - 1,
                forall|k: int| p <= k < i ==> !(#[trigger] vr[k]).sorts_before_eq(&x),
            decreases p,
        {
            p = p - 1;
        }
        v.insert(p, x);
        proof {
            let w = v@;
            assert(w == vr.insert(p as int, x));
            let ordr = ord0.remove(i as int);
            let ord1 = ordr.insert(p as int, i as int);
            assert(x == v0[i as int]);
            assert(x == input[i as int]);
            // positions of the new sequence, in terms of the old one
            assert forall|k: int| 0 <= k < n implies #[trigger] ord1[k] == (if k < p {
                ord0[k]
            } else if k == p {
                i as int
            } else if k <= i {
                ord0[k - 1]
            } else {
                ord0[k]
            }) by {}
            assert forall|k: int| 0 <= k < n implies #[trigger] w[k] == (if k < p {
                v0[k]
            } else if k == p {
                x
            } else if k <= i {
                v0[k - 1]
            } else {
                v0[k]
            }) by {}
            assert forall|k: int| 0 <= k < n && k != i implies #[trigger] ord0[k] != i by {
                if k < i {
                    assert(ord0[k] != ord0[i as int]);
                } else {
                    assert(ord0[i as int] != ord0[k]);
                }
            }
            assert forall|k: int| 0 <= k < n implies 0 <= #[trigger] ord1[k] < n by {}
            assert forall|k1: int, k2: int| 0 <= k1 < k2 < n implies #[trigger] ord1[k1]
                != #[trigger] ord1[k2] by {
                let a = if k1 < p { k1 } else if k1 == p { i as int } else if k1 <= i { k1 - 1 } else { k1 };
                let b = if k2 < p { k2 } else if k2 == p { i as int } else if k2 <= i { k2 - 1 } else { k2 };
                if k1 != p && k2 != p {
                    assert(a < b);
                    assert(ord0[a] != ord0[b]);
                } else if k1 == p {
                    assert(b != i);
                    assert(ord0[b] != i);
                } else {
                    assert(a != i);
                    assert(ord0[a] != i);
                }
            }
            assert forall|j: int| 0 <= j < n implies #[trigger] occurs(ord1, j) by {
                if j == i {
                    assert(ord1[p as int] == j);
                } else {
                    assert(occurs(ord0, j));
                    let k0 = choose|k: int| 0 <= k < n && #[trigger] ord0[k] == j;
                    assert(k0 != i);
                    let k1 = if k0 < p { k0 } else if k0 < i { k0 + 1 } else { k0 };
                    assert(ord1[k1] == j);
                }
            }
            assert forall|k: int| 0 <= k < n implies #[trigger] w[k] == input[ord1[k]] by {}
            assert forall|k: int| i + 1 <= k < n implies #[trigger] ord1[k] == k by {}
            assert forall|k: int| 0 <= k < i + 1 implies #[trigger] ord1[k] < i + 1 by {}
            assert forall|k1: int, k2: int|
                #![trigger w[k1], w[k2]]
                0 <= k1 < k2 < i + 1 implies w[k1].sorts_before_eq(&w[k2]) by {
                if k2 < p {
                    assert(v0[k1].sorts_before_eq(&v0[k2]));
                } else if k2 == p {
                    assert(p > 0);
                    assert(vr[p - 1].sorts_before_eq(&x));
                    assert(vr[p - 1] == v0[p - 1]);
                    if k1 < p - 1 {
                        assert(v0[k1].sorts_before_eq(&v0[p - 1]));
                        T::lemma_transitive(&v0[k1], &v0[p - 1], &x);
                    }
                } else if k1 == p {
                    assert(!vr[k2 - 1].sorts_before_eq(&x));
                    T::lemma_total(&vr[k2 - 1], &x);
                } else if k1 < p {
                    assert(v0[k1].sorts_before_eq(&v0[k2 - 1]));
                } else {
                    assert(v0[k1 - 1].sorts_before_eq(&v0[k2 - 1]));
                }
            }
            assert forall|k1: int, k2: int|
                #![trigger w[k1], w[k2]]
                0 <= k1 < k2 < i + 1 && w[k2].sorts_before_eq(&w[k1])
                implies ord1[k1] < ord1[k2] by {
                if k2 < p {
                    assert(v0[k2].sorts_before_eq(&v0[k1]));
                } else if k2 == p {
                    assert(ord0[k1] < i);
                } else if k1 == p {
                    assert(!vr[k2 - 1].sorts_before_eq(&x));
                } else if k1 < p {
                    assert(v0[k2 - 1].sorts_before_eq(&v0[k1]));
                } else {
                    assert(v0[k2 - 1].sorts_before_eq(&v0[k1 - 1]));
                }
            }
            ord = ord1;
        }
        i = i + 1;
    }
    assert(is_stable_sort(items@, v@, ord));
    v
}


/// Whether a ping `a` sorts no later than `b`: shorter pings first, relays
/// without a ping last.
pub open spec fn ping_le(a: Option<u128>, b: Option<u128>) -> bool {
    match (a, b) {
        (Some(x), Some(y)) => x <= y,
        (Some(_), None) => true,
        (None, Some(_)) => false,
        (None, None) => true,
    }
}

/// Decides `ping_le`.
pub fn ping_le_exec(a: Option<u128>, b: Option<u128>) -> (r: bool)
    ensures
        r == ping_le(a, b),
{
    match (a, b) {
        (Some(x), Some(y)) => x <= y,
        (Some(_), None) => true,
        (None, Some(_)) => false,
        (None, None) => true,
    }
}

impl Ordered for ServerView {
    open spec fn sorts_before_eq(&self, other: &Self) -> bool {
        ping_le(self.ping_ms, other.ping_ms)
    }

    proof fn lemma_total(a: &Self, b: &Self) {
    }

    proof fn lemma_transitive(a: &Self, b: &Self, c: &Self) {
    }

    fn before_eq(&self, other: &Self) -> (r: bool) {
        ping_le_exec(self.ping_ms, other.ping_ms)
    }
}

/// Sorts the relay records by ping, stably: shortest ping first, records
/// without a ping last, records with equal pings in their former order.
pub fn sort_by_ping(views: Vec<ServerView>) -> (out: Vec<ServerView>)
    ensures
        is_stable_sorting(views@, out@),
{
    stable_sort(views)
}

/// A position in the relay list with the ping of the relay there.
pub struct Ranked {
    pub index: usize,
    pub ping_ms: Option<u128>,
}

impl Ordered for Ranked {
    open spec fn sorts_before_eq(&self, other: &Self) -> bool {
        ping_le(self.ping_ms, other.ping_ms)
    }

    proof fn lemma_total(a: &Self, b: &Self) {
    }

    proof fn lemma_transitive(a: &Self, b: &Self, c: &Self) {
    }

    fn before_eq(&self, other: &Self) -> (r: bool) {
        ping_le_exec(self.ping_ms, other.ping_ms)
    }
}

/// Whether a relay is listed: it is not hidden, and it answered unless
/// offline relays are shown too.
pub open spec fn is_listed(s: Server, hide_offline: bool) -> bool {
    &&& s.entry.hidden != Some(true)
    &&& (!hide_offline || s.reachable)
}

/// `order` lists the positions of the listed relays of `servers`, each
/// once, by ping, with equal pings in list order.
pub open spec fn is_listing_order(servers: Seq<Server>, hide_offline: bool, order: Seq<usize>) -> bool {
    &&& forall|k: int|
        0 <= k < order.len() ==> #[trigger] order[k] < servers.len() && is_listed(
            servers[order[k] as int],
            hide_offline,
        )
    &&& forall|j: int|
        0 <= j < servers.len() && is_listed(servers[j], hide_offline) ==> exists|k: int|
            0 <= k < order.len() && #[trigger] order[k] == j
    &&& forall|k1: int, k2: int|
        #![trigger order[k1], order[k2]]
        0 <= k1 < k2 < order.len() ==> ping_le(
            servers[order[k1] as int].ping_ms,
            servers[order[k2] as int].ping_ms,
        )
    &&& forall|k1: int, k2: int|
        #![trigger order[k1], order[k2]]
        0 <= k1 < k2 < order.len() && servers[order[k2] as int].ping_ms == servers[order[k1] as int].ping_ms
            ==> order[k1] < order[k2]
}

/// The positions of the relays to list, in the order they are shown.
pub fn listing_order(servers: &Vec<Server>, hide_offline: bool) -> (order: Vec<usize>)
    ensures
        is_listing_order(servers@, hide_offline, order@),
{
    let n = servers.len();
    let mut ranked: Vec<Ranked> = Vec::new();
    let mut i: usize = 0;
    while i < n
        invariant
            n == servers@.len(),
            i <= n,
            forall|m: int| 0 <= m < ranked@.len() ==> {
                &&& (#[trigger] ranked@[m]).index < i
                &&& is_listed(servers@[ranked@[m].index as int], hide_offline)
                &&& ranked@[m].ping_ms == servers@[ranked@[m].index as int].ping_ms
            },
            forall|m1: int, m2: int|
                #![trigger ranked@[m1], ranked@[m2]]
                0 <= m1 < m2 < ranked@.len() ==> ranked@[m1].index < ranked@[m2].index,
            forall|j: int|
                0 <= j < i && is_listed(servers@[j], hide_offline) ==> exists|m: int|
                    0 <= m < ranked@.len() && (#[trigger] ranked@[m]).index == j,
        decreases n - i,
    {
        let ghost prev = ranked@;
        let s = &servers[i];
        let listed = !s.entry.is_hidden() && (!hide_offline || s.reachable);
        assert(listed == is_listed(servers@[i as int], hide_offline));
        if listed {
            ranked.push(Ranked { index: i, ping_ms: s.ping_ms });
        }
        proof {
            assert forall|j: int|
                0 <= j < i + 1 && is_listed(servers@[j], hide_offline) implies exists|m: int|
                    0 <= m < ranked@.len() && (#[trigger] ranked@[m]).index == j by {
                if j < i {
                    let m = choose|m: int| 0 <= m < prev.len() && (#[trigger] prev[m]).index == j;
                    assert(ranked@[m] == prev[m]);
                } else {
                    let m = ranked@.len() - 1;
                    assert(ranked@[m].index == j);
                }
            }
        }
        i = i + 1;
    }
    let ghost before = ranked@;
    let sorted = stable_sort(ranked);
    let ghost ord = choose|ord: Seq<int>| is_stable_sort(before, sorted@, ord);
    let mut order: Vec<usize> = Vec::new();
    let mut k: usize = 0;
    while k < sorted.len()
        invariant
            k <= sorted@.len(),
            order@.len() == k,
            forall|q: int| 0 <= q < k ==> #[trigger] order@[q] == sorted@[q].index,
        decreases sorted@.len() - k,
    {
        order.push(sorted[k].index);
        k = k + 1;
    }
    proof {
        let r = sorted@;
        assert(is_stable_sort(before, r, ord));
        assert forall|q: int| 0 <= q < order@.len() implies #[trigger] order@[q] < servers@.len()
            && is_listed(servers@[order@[q] as int], hide_offline) by {
            assert(r[q] == before[ord[q]]);
        }
        assert forall|j: int|
            0 <= j < servers@.len() && is_listed(servers@[j], hide_offline) implies exists|q: int|
                0 <= q < order@.len() && #[trigger] order@[q] == j by {
            let m = choose|m: int| 0 <= m < before.len() && (#[trigger] before[m]).index == j;
            assert(occurs(ord, m));
            let q = choose|q: int| 0 <= q < ord.len() && #[trigger] ord[q] == m;
            assert(r[q] == before[ord[q]]);
            assert(order@[q] == j);
        }
        assert forall|k1: int, k2: int|
            #![trigger order@[k1], order@[k2]]
            0 <= k1 < k2 < order@.len() implies ping_le(
                servers@[order@[k1] as int].ping_ms,
                servers@[order@[k2] as int].ping_ms,
            ) by {
            assert(r[k1].sorts_before_eq(&r[k2]));
            assert(r[k1] == before[ord[k1]]);
            assert(r[k2] == before[ord[k2]]);
        }
        assert forall|k1: int, k2: int|
            #![trigger order@[k1], order@[k2]]
            0 <= k1 < k2 < order@.len() && servers@[order@[k2] as int].ping_ms
                == servers@[order@[k1] as int].ping_ms implies order@[k1] < order@[k2] by {
            assert(r[k1] == before[ord[k1]]);
            assert(r[k2] == before[ord[k2]]);
            assert(r[k2].sorts_before_eq(&r[k1]));
            assert(ord[k1] < ord[k2]);
        }
    }
    order
}


/// Lexicographic order of strings by code point, the order in which
/// `str` compares (UTF-8 keeps code point order byte by byte).
pub open spec fn lex_le(a: Seq<char>, b: Seq<char>) -> bool
    decreases a.len(),
{
    if a.len() == 0 {
        true
    } else if b.len() == 0 {
        false
    } else if a[0] != b[0] {
        (a[0] as int) < (b[0] as int)
    } else {
        lex_le(a.drop_first(), b.drop_first())
    }
}

proof fn lemma_lex_total(a: Seq<char>, b: Seq<char>)
    ensures
        lex_le(a, b) || lex_le(b, a),
    decreases a.len(),
{
    if a.len() > 0 && b.len() > 0 {
        if a[0] == b[0] {
            lemma_lex_total(a.drop_first(), b.drop_first());
        } else {
            let x = a[0];
            let y = b[0];
            assert((x as int) != (y as int));
        }
    }
}

proof fn lemma_lex_transitive(a: Seq<char>, b: Seq<char>, c: Seq<char>)
    requires
        lex_le(a, b),
        lex_le(b, c),
    ensures
        lex_le(a, c),
    decreases a.len(),
{
    if a.len() > 0 && b.len() > 0 && c.len() > 0 && a[0] == b[0] && b[0] == c[0] {
        lemma_lex_transitive(a.drop_first(), b.drop_first(), c.drop_first());
    }
}

proof fn lemma_lex_skip(a: Seq<char>, b: Seq<char>, i: int)
    requires
        0 <= i <= a.len(),
        i <= b.len(),
        forall|j: int| 0 <= j < i ==> a[j] == b[j],
    ensures
        lex_le(a, b) == lex_le(a.skip(i), b.skip(i)),
    decreases i,
{
    if i > 0 {
        let a1 = a.drop_first();
        let b1 = b.drop_first();
        assert(a[0] == b[0]);
        assert forall|j: int| 0 <= j < i - 1 implies a1[j] == b1[j] by {
            assert(a1[j] == a[j + 1]);
            assert(b1[j] == b[j + 1]);
        }
        lemma_lex_skip(a1, b1, i - 1);
        assert(a1.skip(i - 1) =~= a.skip(i));
        assert(b1.skip(i - 1) =~= b.skip(i));
    } else {
        assert(a.skip(0) =~= a);
        assert(b.skip(0) =~= b);
    }
}

/// Decides `lex_le`.
pub fn lex_le_str(a: &str, b: &str) -> (r: bool)
    ensures
        r == lex_le(a@, b@),
{
    let na = a.unicode_len();
    let nb = b.unicode_len();
    let mut i: usize = 0;
    while i < na && i < nb && a.get_char(i) == b.get_char(i)
        invariant
            na == a@.len(),
            nb == b@.len(),
            i <= na,
            i <= nb,
            forall|j: int| 0 <= j < i ==> a@[j] == b@[j],
        decreases na - i,
    {
        i = i + 1;
    }
    proof {
        lemma_lex_skip(a@, b@, i as int);
    }
    if i == na {
        true
    } else if i == nb {
        false
    } else {
        let ca = a.get_char(i);
        let cb = b.get_char(i);
        assert(a@.skip(i as int)[0] == ca);
        assert(b@.skip(i as int)[0] == cb);
        (ca as u32) < (cb as u32)
    }
}

impl Ordered for String {
    open spec fn sorts_before_eq(&self, other: &Self) -> bool {
        lex_le(self@, other@)
    }

    proof fn lemma_total(a: &Self, b: &Self) {
        lemma_lex_total(a@, b@);
    }

    proof fn lemma_transitive(a: &Self, b: &Self, c: &Self) {
        lemma_lex_transitive(a@, b@, c@);
    }

    fn before_eq(&self, other: &Self) -> (r: bool) {
        lex_le_str(self.as_str(), other.as_str())
    }
}

/// The interface names other than the loopback `lo`, in their order.
pub open spec fn non_loopback(names: Seq<String>) -> Seq<String> {
    names.filter(|s: String| s@ != "lo"@)
}

/// The network interfaces to offer: all but the loopback `lo`, sorted by
/// name.
pub fn select_nics(names: Vec<String>) -> (out: Vec<String>)
    ensures
        is_stable_sorting(non_loopback(names@), out@),
{
    let lo = String::from_str("lo");
    let mut kept: Vec<String> = Vec::new();
    let mut rest = names;
    let ghost all = rest@;
    let n = rest.len();
    let mut i: usize = 0;
    while i < n
        invariant
            n == all.len(),
            all == names@,
            i <= n,
            rest@ == all.skip(i as int),
            kept@ == non_loopback(all.take(i as int)),
            lo@ == "lo"@,
        decreases n - i,
    {
        let ghost t = all.take(i + 1);
        assert(t.drop_last() =~= all.take(i as int));
        assert(t.last() == all[i as int]);
        proof {
            reveal_with_fuel(Seq::<String>::filter, 1);
        }
        let x = rest.remove(0);
        assert(rest@ =~= all.skip(i + 1));
        if x != lo {
            kept.push(x);
        }
        i = i + 1;
    }
    assert(all.take(n as int) =~= all);
    stable_sort(kept)
}


/// A network interface as it is offered: a display name and the name the
/// capture library knows it by.
#[derive(Clone, Debug)]
pub struct Nic {
    pub display: String,
    pub pcap: String,
}

impl Ordered for Nic {
    open spec fn sorts_before_eq(&self, other: &Self) -> bool {
        lex_le(self.display@, other.display@)
    }

    proof fn lemma_total(a: &Self, b: &Self) {
        lemma_lex_total(a.display@, b.display@);
    }

    proof fn lemma_transitive(a: &Self, b: &Self, c: &Self) {
        lemma_lex_transitive(a.display@, b.display@, c.display@);
    }

    fn before_eq(&self, other: &Self) -> (r: bool) {
        lex_le_str(self.display.as_str(), other.display.as_str())
    }
}

/// The interface that a Windows network adapter key `guid` stands for:
/// only keys in braces are adapters; the display name is the connection's
/// name, or the key where it has none; the capture library knows it as
/// `\Device\NPF_` and the key.
pub open spec fn spec_windows_nic(guid: Seq<char>, friendly: Option<Seq<char>>) -> Option<(
    Seq<char>,
    Seq<char>,
)> {
    if guid.len() > 0 && guid[0] == '{' {
        Some(
            (
                match friendly {
                    Some(f) => f,
                    None => guid,
                },
                "\\Device\\NPF_"@ + guid,
            ),
        )
    } else {
        None
    }
}

/// The interface for the Windows adapter key `guid` with connection name
/// `friendly`, if the key names an adapter.
pub fn windows_nic(guid: &str, friendly: Option<String>) -> (nic: Option<Nic>)
    ensures
        match (nic, spec_windows_nic(guid@, crate::platform::opt_view(friendly))) {
            (Some(n), Some((display, pcap))) => n.display@ == display && n.pcap@ == pcap,
            (None, None) => true,
            _ => false,
        },
{
    if guid.unicode_len() == 0 || guid.get_char(0) != '{' {
        return None;
    }
    let display = match friendly {
        Some(f) => f,
        None => String::from_str(guid),
    };
    let mut pcap = String::from_str("\\Device\\NPF_");
    pcap.append(guid);
    Some(Nic { display, pcap })
}

/// The position of the last `c` in `s`, or -1 where `c` does not occur.
pub open spec fn last_index(s: Seq<char>, c: char) -> int
    decreases s.len(),
{
    if s.len() == 0 {
        -1
    } else if s.last() == c {
        s.len() - 1
    } else {
        last_index(s.drop_last(), c)
    }
}

proof fn lemma_last_index(s: Seq<char>, c: char, k: int)
    requires
        -1 <= k < s.len(),
        forall|j: int| k < j < s.len() ==> #[trigger] s[j] != c,
        k == -1 || s[k] == c,
    ensures
        last_index(s, c) == k,
    decreases s.len(),
{
    if s.len() > 0 {
        if s.last() != c {
            let d = s.drop_last();
            assert(k != s.len() - 1);
            assert forall|j: int| k < j < d.len() implies #[trigger] d[j] != c by {
                assert(d[j] == s[j]);
            }
            if k >= 0 {
                assert(d[k] == s[k]);
            }
            lemma_last_index(d, c, k);
        } else {
            if k < s.len() - 1 {
                assert(s[s.len() - 1] != c);
            }
        }
    }
}

/// The last component of a registry key named on a line of `reg query`
/// output: what follows the last backslash of the trimmed line.
pub open spec fn key_leaf(line: Seq<char>) -> Seq<char> {
    let t = trim(line);
    t.skip(last_index(t, '\\') + 1)
}

/// Reads the last component of the registry key on `line`.
pub fn reg_key_leaf(line: &str) -> (leaf: String)
    ensures
        leaf@ == key_leaf(line@),
{
    let t = trim_string(line);
    let s = t.as_str();
    let n = s.unicode_len();
    let mut k: usize = n;
    while k > 0 && s.get_char(k - 1) != '\\'
        invariant
            n == s@.len(),
            s@ == trim(line@),
            k <= n,
            forall|j: int| k <= j < n ==> #[trigger] s@[j] != '\\',
        decreases k,
    {
        k = k - 1;
    }
    proof {
        lemma_last_index(s@, '\\', k - 1);
        assert(s@.subrange(k as int, n as int) =~= s@.skip(k as int));
    }
    String::from_str(s.substring_char(k, n))
}

/// The string data of the value `name` on a line of `reg query` output: the
/// trimmed line is the name, four spaces, `REG_SZ`, four spaces and the
/// data, which is taken without surrounding white space.
pub open spec fn reg_sz_value(line: Seq<char>, name: Seq<char>) -> Option<Seq<char>> {
    let t = trim(line);
    let p = name + "    REG_SZ    "@;
    if p.len() <= t.len() && t.take(p.len() as int) == p {
        Some(trim(t.skip(p.len() as int)))
    } else {
        None
    }
}

/// Reads the string data of the value `name` from a line of `reg query`
/// output.
pub fn reg_sz_line(line: &str, name: &str) -> (v: Option<String>)
    ensures
        match reg_sz_value(line@, name@) {
            Some(d) => v matches Some(x) && x@ == d,
            None => v is None,
        },
{
    let t = trim_string(line);
    let s = t.as_str();
    let mut p = String::from_str(name);
    p.append("    REG_SZ    ");
    let ps = p.as_str();
    let n = s.unicode_len();
    let m = ps.unicode_len();
    if m > n {
        return None;
    }
    let mut i: usize = 0;
    while i < m
        invariant
            n == s@.len(),
            m == ps@.len(),
            s@ == trim(line@),
            ps@ == name@ + "    REG_SZ    "@,
            m <= n,
            i <= m,
            forall|j: int| 0 <= j < i ==> s@[j] == ps@[j],
        decreases m - i,
    {
        if s.get_char(i) != ps.get_char(i) {
            assert(s@.take(m as int)[i as int] != ps@[i as int]);
            return None;
        }
        i = i + 1;
    }
    assert(s@.take(m as int) =~= ps@);
    assert(s@.subrange(m as int, n as int) =~= s@.skip(m as int));
    Some(trim_string(s.substring_char(m, n)))
}

/// Sorts network interfaces by display name, stably.
pub fn sort_nics(nics: Vec<Nic>) -> (out: Vec<Nic>)
    ensures
        is_stable_sorting(nics@, out@),
{
    stable_sort(nics)
}

} // verus!
