//! The filter over a whole raw address collection, and the laws that hold
//! of it: the output consists exactly of the kept addresses, in input
//! order, each paired with the HTTPS port, and filtering is idempotent.

use vstd::prelude::*;

use crate::address::{spec_keeps, spec_socket_of, IpAddress, SocketAddress};

verus! {

/// The subsequence of `s` that the filter policy keeps, in input order.
pub open spec fn kept_addresses(s: Seq<IpAddress>) -> Seq<IpAddress>
    decreases s.len(),
{
    if s.len() == 0 {
        Seq::empty()
    } else if spec_keeps(s.last()) {
        kept_addresses(s.drop_last()).push(s.last())
    } else {
        kept_addresses(s.drop_last())
    }
}

/// What resolution hands back on success: the kept addresses of `s`, in
/// input order, each paired with the HTTPS port.
pub open spec fn filtered_addresses(s: Seq<IpAddress>) -> Seq<SocketAddress> {
    kept_addresses(s).map_values(|ip: IpAddress| spec_socket_of(ip))
}

/// How many of the first `i` elements of `s` the filter policy keeps.
/// For a kept element at index `i`, this is its position in the output.
pub open spec fn kept_count(s: Seq<IpAddress>, i: int) -> int
    decreases i,
{
    if i <= 0 {
        0
    } else {
        kept_count(s, i - 1) + if spec_keeps(s[i - 1]) { 1int } else { 0int }
    }
}

/// Apply the filter policy to a raw address collection.
pub fn filter_addresses(addrs: &Vec<IpAddress>) -> (r: Vec<SocketAddress>)
    ensures
        r@ == filtered_addresses(addrs@),
{
    let mut out: Vec<SocketAddress> = Vec::new();
    let mut i: usize = 0;
    while i < addrs.len()
        invariant
            i <= addrs.len(),
            out@ == filtered_addresses(addrs@.take(i as int)),
        decreases addrs.len() - i,
    {
        let ip = addrs[i];
        proof {
            assert(addrs@.take(i + 1).drop_last() =~= addrs@.take(i as int));
            assert(addrs@.take(i + 1).last() == addrs@[i as int]);
            if spec_keeps(addrs@[i as int]) {
                assert(filtered_addresses(addrs@.take(i + 1)) =~= filtered_addresses(
                    addrs@.take(i as int),
                ).push(spec_socket_of(addrs@[i as int])));
            } else {
                assert(filtered_addresses(addrs@.take(i + 1)) =~= filtered_addresses(
                    addrs@.take(i as int),
                ));
            }
        }
        if ip.keep() {
            out.push(ip.with_https_port());
        }
        i = i + 1;
    }
    proof {
        assert(addrs@.take(addrs@.len() as int) =~= addrs@);
    }
    out
}

/// `kept_count` only reads the first `i` elements, so two collections that
/// agree there have the same count.
proof fn lemma_kept_count_prefix(s: Seq<IpAddress>, t: Seq<IpAddress>, i: int)
    requires
        i <= s.len(),
        i <= t.len(),
        forall|k: int| 0 <= k < i ==> s[k] == t[k],
    ensures
        kept_count(s, i) == kept_count(t, i),
    decreases i,
{
    if i > 0 {
        lemma_kept_count_prefix(s, t, i - 1);
    }
}

/// `kept_count` grows with the index, by at most one per step.
proof fn lemma_kept_count_monotone(s: Seq<IpAddress>, i: int, j: int)
    requires
        0 <= i <= j,
    ensures
        kept_count(s, i) <= kept_count(s, j) <= kept_count(s, i) + (j - i),
    decreases j - i,
{
    if i < j {
        lemma_kept_count_monotone(s, i, j - 1);
    }
}

/// The filter keeps exactly `kept_count(s, s.len())` addresses.
proof fn lemma_kept_len(s: Seq<IpAddress>)
    ensures
        kept_addresses(s).len() == kept_count(s, s.len() as int),
    decreases s.len(),
{
    if s.len() > 0 {
        lemma_kept_len(s.drop_last());
        lemma_kept_count_prefix(s.drop_last(), s, s.len() - 1);
    }
}

/// A kept input address stands in the output at position `kept_count(s, i)`.
proof fn lemma_kept_position(s: Seq<IpAddress>, i: int)
    requires
        0 <= i < s.len(),
        spec_keeps(s[i]),
    ensures
        0 <= kept_count(s, i) < kept_addresses(s).len(),
        kept_addresses(s)[kept_count(s, i)] == s[i],
    decreases s.len(),
{
    lemma_kept_len(s);
    lemma_kept_count_monotone(s, 0, i);
    lemma_kept_count_monotone(s, i + 1, s.len() as int);
    if i == s.len() - 1 {
        lemma_kept_len(s.drop_last());
        lemma_kept_count_prefix(s.drop_last(), s, i);
    } else {
        lemma_kept_position(s.drop_last(), i);
        lemma_kept_count_prefix(s.drop_last(), s, i);
        lemma_kept_len(s.drop_last());
        lemma_kept_count_prefix(s.drop_last(), s, s.len() - 1);
        lemma_kept_count_monotone(s, i + 1, s.len() - 1);
    }
}

/// Every output position holds a kept input address, at the position that
/// `kept_count` gives it.
proof fn lemma_kept_source(s: Seq<IpAddress>, j: int)
    requires
        0 <= j < kept_addresses(s).len(),
    ensures
        exists|i: int|
            0 <= i < s.len() && spec_keeps(#[trigger] s[i]) && kept_count(s, i) == j
                && kept_addresses(s)[j] == s[i],
    decreases s.len(),
{
    lemma_kept_len(s);
    lemma_kept_len(s.drop_last());
    lemma_kept_count_prefix(s.drop_last(), s, s.len() - 1);
    if j < kept_addresses(s.drop_last()).len() {
        lemma_kept_source(s.drop_last(), j);
        let i = choose|i: int|
            0 <= i < s.drop_last().len() && spec_keeps(#[trigger] s.drop_last()[i])
                && kept_count(s.drop_last(), i) == j && kept_addresses(s.drop_last())[j]
                == s.drop_last()[i];
        lemma_kept_count_prefix(s.drop_last(), s, i);
        assert(0 <= i < s.len() && spec_keeps(s[i]) && kept_count(s, i) == j
            && kept_addresses(s)[j] == s[i]);
    } else {
        let i = s.len() - 1;
        assert(spec_keeps(s[i]) && kept_count(s, i) == j && kept_addresses(s)[j] == s[i]);
    }
}

/// Law: the output is exactly the kept part of the input, in input order.
/// The output has one element for each kept input address; the kept input
/// address at index `i` appears at output position `kept_count(s, i)`,
/// paired with the HTTPS port; positions never decrease along the input;
/// and every output position arises this way, so the filter adds nothing,
/// duplicates nothing, and never reorders survivors.
pub proof fn lemma_filter_exact(s: Seq<IpAddress>)
    ensures
        filtered_addresses(s).len() == kept_count(s, s.len() as int),
        forall|i: int|
            0 <= i < s.len() && spec_keeps(#[trigger] s[i]) ==> 0 <= kept_count(s, i)
                < filtered_addresses(s).len() && filtered_addresses(s)[kept_count(s, i)]
                == spec_socket_of(s[i]),
        forall|i: int, j: int|
            0 <= i <= j <= s.len() ==> #[trigger] kept_count(s, i) <= #[trigger] kept_count(s, j),
        forall|i: int|
            0 <= i < s.len() && spec_keeps(#[trigger] s[i]) ==> kept_count(s, i + 1) == kept_count(
                s,
                i,
            ) + 1,
        forall|j: int|
            0 <= j < filtered_addresses(s).len() ==> exists|i: int|
                0 <= i < s.len() && spec_keeps(#[trigger] s[i]) && kept_count(s, i) == j
                    && #[trigger] filtered_addresses(s)[j] == spec_socket_of(s[i]),
{
    lemma_kept_len(s);
    assert forall|i: int| 0 <= i < s.len() && spec_keeps(#[trigger] s[i]) implies 0 <= kept_count(
        s,
        i,
    ) < filtered_addresses(s).len() && filtered_addresses(s)[kept_count(s, i)] == spec_socket_of(
        s[i],
    ) by {
        lemma_kept_position(s, i);
    }
    assert forall|i: int, j: int| 0 <= i <= j <= s.len() implies #[trigger] kept_count(s, i)
        <= #[trigger] kept_count(s, j) by {
        lemma_kept_count_monotone(s, i, j);
    }
    assert forall|j: int| 0 <= j < filtered_addresses(s).len() implies exists|i: int|
        0 <= i < s.len() && spec_keeps(#[trigger] s[i]) && kept_count(s, i) == j
            && #[trigger] filtered_addresses(s)[j] == spec_socket_of(s[i]) by {
        lemma_kept_source(s, j);
    }
}

/// Law: filtering never reorders survivors. Two kept input addresses, in
/// input order, stand in the output in that same order.
pub proof fn lemma_filter_preserves_order(s: Seq<IpAddress>, i: int, j: int)
    requires
        0 <= i < j < s.len(),
        spec_keeps(s[i]),
        spec_keeps(s[j]),
    ensures
        kept_count(s, i) < kept_count(s, j),
        filtered_addresses(s)[kept_count(s, i)] == spec_socket_of(s[i]),
        filtered_addresses(s)[kept_count(s, j)] == spec_socket_of(s[j]),
{
    lemma_kept_position(s, i);
    lemma_kept_position(s, j);
    lemma_kept_count_monotone(s, i + 1, j);
}

/// Every address that the filter keeps satisfies the policy itself.
proof fn lemma_kept_all_kept(s: Seq<IpAddress>)
    ensures
        forall|k: int|
            0 <= k < kept_addresses(s).len() ==> spec_keeps(#[trigger] kept_addresses(s)[k]),
    decreases s.len(),
{
    if s.len() > 0 {
        lemma_kept_all_kept(s.drop_last());
        assert forall|k: int| 0 <= k < kept_addresses(s).len() implies spec_keeps(
            #[trigger] kept_addresses(s)[k],
        ) by {
            if k < kept_addresses(s.drop_last()).len() {
                assert(kept_addresses(s)[k] == kept_addresses(s.drop_last())[k]);
            } else {
                assert(kept_addresses(s)[k] == s.last());
            }
        }
    }
}

/// On a collection whose addresses all satisfy the policy, the filter is
/// the identity.
proof fn lemma_kept_identity(s: Seq<IpAddress>)
    requires
        forall|k: int| 0 <= k < s.len() ==> spec_keeps(#[trigger] s[k]),
    ensures
        kept_addresses(s) == s,
    decreases s.len(),
{
    if s.len() > 0 {
        lemma_kept_identity(s.drop_last());
        assert(kept_addresses(s) =~= s);
    } else {
        assert(kept_addresses(s) =~= s);
    }
}

/// Law: filtering is idempotent. Re-applying the filter to the addresses
/// that survived it changes nothing, and re-running the whole pipeline on
/// them reproduces the output.
pub proof fn lemma_filter_idempotent(s: Seq<IpAddress>)
    ensures
        kept_addresses(kept_addresses(s)) == kept_addresses(s),
        filtered_addresses(kept_addresses(s)) == filtered_addresses(s),
{
    lemma_kept_all_kept(s);
    lemma_kept_identity(kept_addresses(s));
}

/// Law: an empty raw collection yields an empty output.
pub proof fn lemma_filter_empty(s: Seq<IpAddress>)
    requires
        s.len() == 0,
    ensures
        filtered_addresses(s).len() == 0,
{
}

} // verus!
