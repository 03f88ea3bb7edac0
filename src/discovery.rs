use vstd::prelude::*;

use crate::text::{contains_seq, contains_str};
use crate::topology::{host_of_location, parse_location};
use crate::xml::option_view;

verus! {

/// The search target of a Sonos root device.
pub open spec fn zone_player_urn() -> Seq<char> {
    "urn:schemas-upnp-org:device:ZonePlayer:1"@
}

/// The search target to ask for when looking for speakers.
pub fn search_target() -> (r: String)
    ensures
        r@ == zone_player_urn(),
{
    String::from_str("urn:schemas-upnp-org:device:ZonePlayer:1")
}

/// One answer to a discovery search: the service type it advertises and its location URL.
#[derive(Debug)]
pub struct SsdpResponse {
    pub search_target: String,
    pub location: String,
}

/// The address that an answer yields: none where it does not advertise the Sonos root device
/// type, or where its location is not of the form `http(s)://<address>:1400/xml`.
pub open spec fn response_address(search_target: Seq<char>, location: Seq<char>) -> Option<
    Seq<char>,
> {
    if contains_seq(search_target, zone_player_urn()) {
        host_of_location(location)
    } else {
        None
    }
}

/// The address that a response yields.
pub open spec fn address_of(r: SsdpResponse) -> Option<Seq<char>> {
    response_address(r.search_target@, r.location@)
}

/// The addresses that the answers yield, in the order of the answers.
pub open spec fn addresses_of(rs: Seq<SsdpResponse>) -> Seq<Seq<char>>
    decreases rs.len(),
{
    if rs.len() == 0 {
        Seq::empty()
    } else {
        match address_of(rs.last()) {
            Some(a) => addresses_of(rs.drop_last()).push(a),
            None => addresses_of(rs.drop_last()),
        }
    }
}

impl SsdpResponse {
    /// The address of the speaker that sent this answer, or `None` where the answer is to be
    /// dropped.
    pub fn address(&self) -> (r: Option<String>)
        ensures
            option_view(r) == address_of(*self),
    {
        if contains_str(self.search_target.as_str(), "urn:schemas-upnp-org:device:ZonePlayer:1") {
            parse_location(self.location.as_str())
        } else {
            None
        }
    }
}

/// The addresses of the speakers among the answers to a search, in order; answers from other
/// devices, and answers whose location cannot be read, are dropped.
pub fn accepted_addresses(responses: &Vec<SsdpResponse>) -> (r: Vec<String>)
    ensures
        r@.map_values(|s: String| s@) == addresses_of(responses@),
{
    let n = responses.len();
    let mut out: Vec<String> = Vec::new();
    let mut i: usize = 0;
    assert(responses@.subrange(0, 0) =~= Seq::<SsdpResponse>::empty());
    while i < n
        invariant
            n == responses@.len(),
            i <= n,
            out@.map_values(|s: String| s@) == addresses_of(responses@.subrange(0, i as int)),
        decreases n - i,
    {
        let ghost p = responses@.subrange(0, i + 1);
        assert(p.drop_last() =~= responses@.subrange(0, i as int));
        assert(p.last() == responses@[i as int]);
        match responses[i].address() {
            Some(a) => {
                let ghost before = out@;
                out.push(a);
                assert(out@.map_values(|s: String| s@) =~= before.map_values(|s: String| s@).push(
                    a@,
                ));
            },
            None => {},
        }
        i = i + 1;
    }
    assert(responses@.subrange(0, n as int) =~= responses@);
    out
}

/// Discovery keeps exactly the answers of Sonos root devices with a readable location: every
/// address it yields comes from such an answer, every such answer yields its address, and where
/// there is none the result is empty.
pub proof fn lemma_discovery_filter(rs: Seq<SsdpResponse>)
    ensures
        forall|j: int|
            0 <= j < addresses_of(rs).len() ==> exists|i: int|
                0 <= i < rs.len() && #[trigger] address_of(rs[i]) == Some(
                    #[trigger] addresses_of(rs)[j],
                ),
        forall|i: int|
            0 <= i < rs.len() && #[trigger] address_of(rs[i]) is Some ==> addresses_of(
                rs,
            ).contains(address_of(rs[i])->Some_0),
        (forall|i: int| 0 <= i < rs.len() ==> #[trigger] address_of(rs[i]) is None) ==> addresses_of(
            rs,
        ).len() == 0,
    decreases rs.len(),
{
    if rs.len() > 0 {
        let init = rs.drop_last();
        lemma_discovery_filter(init);
        let prev = addresses_of(init);
        let cur = addresses_of(rs);
        assert forall|i: int| 0 <= i < init.len() implies init[i] == rs[i] by {}
        assert forall|j: int| 0 <= j < cur.len() implies exists|i: int|
            0 <= i < rs.len() && #[trigger] address_of(rs[i]) == Some(#[trigger] cur[j]) by {
            if j < prev.len() {
                assert(cur[j] == prev[j]);
                let i = choose|i: int| 0 <= i < init.len() && address_of(init[i]) == Some(prev[j]);
                assert(address_of(rs[i]) == Some(cur[j]));
            } else {
                assert(address_of(rs[rs.len() - 1]) == Some(cur[j]));
            }
        }
        assert forall|i: int| 0 <= i < rs.len() && #[trigger] address_of(rs[i]) is Some implies cur.contains(
            address_of(rs[i])->Some_0,
        ) by {
            if i < init.len() {
                assert(address_of(init[i]) is Some);
                let k = choose|k: int| 0 <= k < prev.len() && prev[k] == address_of(init[i])->Some_0;
                assert(cur[k] == prev[k]);
            } else {
                assert(cur[cur.len() - 1] == address_of(rs[i])->Some_0);
            }
        }
        if forall|i: int| 0 <= i < rs.len() ==> #[trigger] address_of(rs[i]) is None {
            assert forall|i: int| 0 <= i < init.len() implies #[trigger] address_of(init[i]) is None by {
                assert(init[i] == rs[i]);
            }
            assert(address_of(rs[rs.len() - 1]) is None);
        }
    }
}

} // verus!
