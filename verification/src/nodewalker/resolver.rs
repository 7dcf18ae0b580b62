//! The DNS seeds that a walk starts from.
use vstd::prelude::*;

verus! {

/// The DNS seeds whose addresses are the first nodes to walk. Looking them
/// up is the caller's work.
pub struct Resolver {
    dns_seeds: Vec<String>,
}

impl Resolver {
    /// The seeds, as names.
    pub closed spec fn spec_seeds(&self) -> Seq<Seq<char>> {
        self.dns_seeds@.map_values(|s: String| s@)
    }

    /// A resolver of `dns_seeds`.
    pub fn new(dns_seeds: Vec<String>) -> (r: Resolver)
        ensures
            r.spec_seeds() == dns_seeds@.map_values(|s: String| s@),
    {
        Resolver { dns_seeds: dns_seeds }
    }

    /// The seeds to look up, in order.
    pub fn dns_seeds(&self) -> (s: &Vec<String>)
        ensures
            s@.map_values(|s: String| s@) == self.spec_seeds(),
    {
        &self.dns_seeds
    }
}

/// Two addresses, as bytes, are the same.
fn same_bytes(a: &Vec<u8>, b: &Vec<u8>) -> (r: bool)
    ensures
        r == (a@ == b@),
{
    if a.len() != b.len() {
        return false;
    }
    let mut i: usize = 0;
    while i < a.len()
        invariant
            a@.len() == b@.len(),
            i <= a@.len(),
            a@.take(i as int) == b@.take(i as int),
        decreases a.len() - i,
    {
        if a[i] != b[i] {
            assert(a@[i as int] != b@[i as int]);
            return false;
        }
        assert(a@.take(i + 1) =~= a@.take(i as int).push(a@[i as int]));
        assert(b@.take(i + 1) =~= b@.take(i as int).push(b@[i as int]));
        i = i + 1;
    }
    assert(a@.take(a@.len() as int) =~= a@);
    assert(b@.take(b@.len() as int) =~= b@);
    true
}

/// `list` holds `ip`.
fn holds_ip(list: &Vec<Vec<u8>>, ip: &Vec<u8>) -> (r: bool)
    ensures
        r == list.deep_view().contains(ip@),
{
    let mut i: usize = 0;
    while i < list.len()
        invariant
            i <= list@.len(),
            forall|k: int| 0 <= k < i ==> list.deep_view()[k] != ip@,
        decreases list.len() - i,
    {
        assert(list.deep_view()[i as int] =~= list@[i as int]@);
        if same_bytes(&list[i], ip) {
            return true;
        }
        i = i + 1;
    }
    false
}

/// The addresses of all the answers, each once (the union of the answers
/// as sets), in the order in which they first appear. An address is its
/// bytes: four for IPv4, sixteen for IPv6.
pub fn union_ips(answers: &Vec<Vec<Vec<u8>>>) -> (ips: Vec<Vec<u8>>)
    ensures
        ips.deep_view().no_duplicates(),
        forall|ip: Seq<u8>|
            #![trigger ips.deep_view().contains(ip)]
            ips.deep_view().contains(ip) <==> exists|i: int|
                0 <= i < answers@.len() && #[trigger] answers.deep_view()[i].contains(ip),
{
    let mut ips: Vec<Vec<u8>> = Vec::new();
    let mut i: usize = 0;
    while i < answers.len()
        invariant
            i <= answers@.len(),
            ips.deep_view().no_duplicates(),
            forall|ip: Seq<u8>|
                #![trigger ips.deep_view().contains(ip)]
                ips.deep_view().contains(ip) <==> exists|k: int|
                    0 <= k < i && #[trigger] answers.deep_view()[k].contains(ip),
        decreases answers.len() - i,
    {
        let answer = &answers[i];
        let ghost before = ips.deep_view();
        let mut j: usize = 0;
        while j < answer.len()
            invariant
                i < answers@.len(),
                answer == answers@[i as int],
                j <= answer@.len(),
                ips.deep_view().no_duplicates(),
                forall|ip: Seq<u8>|
                    #![trigger ips.deep_view().contains(ip)]
                    ips.deep_view().contains(ip) <==> (before.contains(ip) || exists|l: int|
                        0 <= l < j && #[trigger] answer.deep_view()[l] == ip),
            decreases answer.len() - j,
        {
            let ip = &answer[j];
            let ghost old_ips = ips.deep_view();
            assert(answer.deep_view()[j as int] =~= ip@);
            if !holds_ip(&ips, ip) {
                let copy = ip.clone();
                assert(copy@ =~= ip@);
                ips.push(copy);
                proof {
                    assert(copy.deep_view() =~= copy@);
                    assert(ips.deep_view() =~= old_ips.push(ip@));
                    assert forall|a: int, b: int| 0 <= a < b < ips.deep_view().len() implies
                        ips.deep_view()[a] != ips.deep_view()[b] by {
                        if b == old_ips.len() {
                            assert(old_ips.contains(old_ips[a]));
                        }
                    }
                    assert forall|x: Seq<u8>| #[trigger] ips.deep_view().contains(x) implies
                        old_ips.contains(x) || x == ip@ by {
                        let k = choose|k: int| 0 <= k < ips.deep_view().len() && ips.deep_view()[k] == x;
                        if k < old_ips.len() {
                            assert(old_ips[k] == x);
                        }
                    }
                    assert(ips.deep_view()[old_ips.len() as int] == ip@);
                }
            }
            proof {
                assert(answer.deep_view()[j as int] == ip@);
                assert forall|x: Seq<u8>| #![trigger ips.deep_view().contains(x)]
                    ips.deep_view().contains(x) <==> (before.contains(x) || exists|l: int|
                        0 <= l < j + 1 && #[trigger] answer.deep_view()[l] == x) by {
                    if old_ips.contains(x) {
                        let k = choose|k: int| 0 <= k < old_ips.len() && old_ips[k] == x;
                        assert(ips.deep_view()[k] == x);
                    }
                    if exists|l: int| 0 <= l < j + 1 && #[trigger] answer.deep_view()[l] == x {
                        let l = choose|l: int| 0 <= l < j + 1 && #[trigger] answer.deep_view()[l] == x;
                        if l < j {
                            assert(old_ips.contains(x));
                        }
                    }
                }
            }
            j = j + 1;
        }
        proof {
            assert forall|x: Seq<u8>| #![trigger ips.deep_view().contains(x)]
                ips.deep_view().contains(x) <==> exists|k: int|
                    0 <= k < i + 1 && #[trigger] answers.deep_view()[k].contains(x) by {
                if exists|l: int| 0 <= l < answer@.len() && #[trigger] answer.deep_view()[l] == x {
                    let l = choose|l: int| 0 <= l < answer@.len() && #[trigger] answer.deep_view()[l] == x;
                    assert(answers.deep_view()[i as int] == answer.deep_view());
                    assert(answers.deep_view()[i as int].contains(x));
                }
                if answers.deep_view()[i as int].contains(x) {
                    assert(answers.deep_view()[i as int] == answer.deep_view());
                    let l = choose|l: int| 0 <= l < answer@.len() && answer.deep_view()[l] == x;
                    assert(answer.deep_view()[l] == x);
                }
                if exists|k: int| 0 <= k < i + 1 && #[trigger] answers.deep_view()[k].contains(x) {
                    let k = choose|k: int| 0 <= k < i + 1 && #[trigger] answers.deep_view()[k].contains(x);
                    if k < i {
                        assert(before.contains(x) || ips.deep_view().contains(x));
                    }
                }
            }
        }
        i = i + 1;
    }
    ips
}

} // verus!
