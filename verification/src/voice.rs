//! Voice: who is in which voice channel on the hub, the voice-activity
//! switch of a sending client, and the small rules around audio devices
//! and codec rates. The audio itself (floating-point samples) stays outside.

use vstd::prelude::*;

use crate::text::str_eq;

verus! {

/// One user's registration in a voice channel, with the UDP port their
/// client listens on.
#[derive(Clone, Debug)]
pub struct VoiceRegistration {
    pub channel_id: String,
    pub public_key: String,
    pub udp_port: u16,
}

/// The (channel, user) a registration is for.
pub open spec fn reg_key(r: VoiceRegistration) -> (Seq<char>, Seq<char>) {
    (r.channel_id@, r.public_key@)
}

/// The registrations as a map from (channel, user) to port; a later entry
/// for the same pair wins.
pub open spec fn reg_map(v: Seq<VoiceRegistration>) -> Map<(Seq<char>, Seq<char>), u16>
    decreases v.len(),
{
    if v.len() == 0 {
        Map::empty()
    } else {
        reg_map(v.drop_last()).insert(reg_key(v.last()), v.last().udp_port)
    }
}

/// No (channel, user) pair is registered twice.
pub open spec fn regs_unique(v: Seq<VoiceRegistration>) -> bool {
    forall|i: int, j: int| 0 <= i < j < v.len() ==> reg_key(#[trigger] v[i]) != reg_key(#[trigger] v[j])
}

proof fn lemma_reg_map_dom(v: Seq<VoiceRegistration>, key: (Seq<char>, Seq<char>))
    ensures
        reg_map(v).dom().contains(key) <==> exists|i: int| 0 <= i < v.len() && reg_key(#[trigger] v[i]) == key,
    decreases v.len(),
{
    if v.len() > 0 {
        lemma_reg_map_dom(v.drop_last(), key);
        if reg_map(v.drop_last()).dom().contains(key) {
            let i = choose|i: int| 0 <= i < v.drop_last().len() && reg_key(#[trigger] v.drop_last()[i]) == key;
            assert(v[i] == v.drop_last()[i]);
        }
        if exists|i: int| 0 <= i < v.len() && reg_key(#[trigger] v[i]) == key {
            let i = choose|i: int| 0 <= i < v.len() && reg_key(#[trigger] v[i]) == key;
            if i < v.len() - 1 {
                assert(v.drop_last()[i] == v[i]);
            }
        }
    }
}

proof fn lemma_unique_drop_last(v: Seq<VoiceRegistration>)
    requires
        regs_unique(v),
        v.len() > 0,
    ensures
        regs_unique(v.drop_last()),
        forall|i: int| 0 <= i < v.len() - 1 ==> reg_key(#[trigger] v[i]) != reg_key(v.last()),
{
    assert forall|a: int, b: int| 0 <= a < b < v.drop_last().len() implies reg_key(#[trigger] v.drop_last()[a]) != reg_key(#[trigger] v.drop_last()[b]) by {
        assert(v.drop_last()[a] == v[a]);
        assert(v.drop_last()[b] == v[b]);
    }
    assert forall|i: int| 0 <= i < v.len() - 1 implies reg_key(#[trigger] v[i]) != reg_key(v.last()) by {
        assert(reg_key(v[i]) != reg_key(v[v.len() - 1]));
    }
}

/// The registrations other than the one for `key`, in order.
pub open spec fn without_spec(v: Seq<VoiceRegistration>, key: (Seq<char>, Seq<char>)) -> Seq<VoiceRegistration>
    decreases v.len(),
{
    if v.len() == 0 {
        Seq::empty()
    } else {
        let rest = without_spec(v.drop_last(), key);
        if reg_key(v.last()) == key {
            rest
        } else {
            rest.push(v.last())
        }
    }
}

proof fn lemma_without(v: Seq<VoiceRegistration>, key: (Seq<char>, Seq<char>))
    requires
        regs_unique(v),
    ensures
        reg_map(without_spec(v, key)) == reg_map(v).remove(key),
        regs_unique(without_spec(v, key)),
        forall|j: int| 0 <= j < without_spec(v, key).len() ==> exists|i: int| 0 <= i < v.len() && #[trigger] v[i] == #[trigger] without_spec(v, key)[j],
        forall|j: int| 0 <= j < without_spec(v, key).len() ==> reg_key(#[trigger] without_spec(v, key)[j]) != key,
    decreases v.len(),
{
    if v.len() == 0 {
        assert(reg_map(v).remove(key) =~= Map::empty());
    } else {
        let w = v.drop_last();
        lemma_unique_drop_last(v);
        lemma_without(w, key);
        let r = v.last();
        let rest = without_spec(w, key);
        if reg_key(r) == key {
            assert(reg_map(v).remove(key) =~= reg_map(w).remove(key));
            assert forall|j: int| 0 <= j < rest.len() implies exists|i: int| 0 <= i < v.len() && #[trigger] v[i] == #[trigger] rest[j] by {
                let i = choose|i: int| 0 <= i < w.len() && #[trigger] w[i] == #[trigger] rest[j];
                assert(v[i] == w[i]);
            }
        } else {
            let out = rest.push(r);
            assert(out.drop_last() =~= rest);
            assert(out.last() == r);
            assert(reg_map(out) == reg_map(rest).insert(reg_key(r), r.udp_port));
            assert(reg_map(v) == reg_map(w).insert(reg_key(r), r.udp_port));
            assert(reg_map(out) =~= reg_map(v).remove(key));
            assert forall|j: int| 0 <= j < out.len() implies exists|i: int| 0 <= i < v.len() && #[trigger] v[i] == #[trigger] out[j] by {
                if j < rest.len() {
                    assert(out[j] == rest[j]);
                    let i = choose|i: int| 0 <= i < w.len() && #[trigger] w[i] == #[trigger] rest[j];
                    assert(v[i] == w[i]);
                } else {
                    assert(v[v.len() - 1] == out[j]);
                }
            }
            assert forall|j: int| 0 <= j < out.len() implies reg_key(#[trigger] out[j]) != key by {
                if j < rest.len() {
                    assert(out[j] == rest[j]);
                }
            }
            assert forall|a: int, b: int| 0 <= a < b < out.len() implies reg_key(#[trigger] out[a]) != reg_key(#[trigger] out[b]) by {
                assert(out[a] == rest[a]);
                if b < rest.len() {
                    assert(out[b] == rest[b]);
                } else {
                    let i = choose|i: int| 0 <= i < w.len() && #[trigger] w[i] == #[trigger] rest[a];
                    assert(v[i] == w[i]);
                }
            }
        }
    }
}

/// The (user, port) pairs registered in a channel, in order.
pub open spec fn channel_entries(v: Seq<VoiceRegistration>, channel_id: Seq<char>) -> Seq<(Seq<char>, u16)>
    decreases v.len(),
{
    if v.len() == 0 {
        Seq::empty()
    } else {
        let rest = channel_entries(v.drop_last(), channel_id);
        if v.last().channel_id@ == channel_id {
            rest.push((v.last().public_key@, v.last().udp_port))
        } else {
            rest
        }
    }
}

proof fn lemma_channel_entries(v: Seq<VoiceRegistration>, c: Seq<char>)
    requires
        regs_unique(v),
    ensures
        forall|k: Seq<char>| reg_map(v).dom().contains((c, k)) <==> exists|j: int| 0 <= j < channel_entries(v, c).len() && (#[trigger] channel_entries(v, c)[j]).0 == k,
        forall|j: int| 0 <= j < channel_entries(v, c).len() ==> reg_map(v).dom().contains((c, (#[trigger] channel_entries(v, c)[j]).0))
            && reg_map(v)[(c, channel_entries(v, c)[j].0)] == channel_entries(v, c)[j].1,
        forall|a: int, b: int| 0 <= a < b < channel_entries(v, c).len() ==> (#[trigger] channel_entries(v, c)[a]).0 != (#[trigger] channel_entries(v, c)[b]).0,
    decreases v.len(),
{
    if v.len() > 0 {
        let w = v.drop_last();
        let r = v.last();
        lemma_unique_drop_last(v);
        lemma_channel_entries(w, c);
        let old_e = channel_entries(w, c);
        let e = channel_entries(v, c);
        assert(reg_map(v) == reg_map(w).insert(reg_key(r), r.udp_port));
        assert forall|k: Seq<char>| reg_map(v).dom().contains((c, k)) <==> exists|j: int| 0 <= j < e.len() && (#[trigger] e[j]).0 == k by {
            if (c, k) == reg_key(r) {
                assert(e[e.len() - 1].0 == k);
            }
            if reg_map(w).dom().contains((c, k)) {
                let j = choose|j: int| 0 <= j < old_e.len() && (#[trigger] old_e[j]).0 == k;
                assert(e[j] == old_e[j]);
            }
            if exists|j: int| 0 <= j < e.len() && (#[trigger] e[j]).0 == k {
                let j = choose|j: int| 0 <= j < e.len() && (#[trigger] e[j]).0 == k;
                if j < old_e.len() {
                    assert(e[j] == old_e[j]);
                }
            }
        }
        assert forall|a: int, b: int| 0 <= a < b < e.len() implies (#[trigger] e[a]).0 != (#[trigger] e[b]).0 by {
            assert(e[a] == old_e[a]);
            if b < old_e.len() {
                assert(e[b] == old_e[b]);
            } else if e[a].0 == e[b].0 {
                assert(reg_map(w).dom().contains((c, old_e[a].0)));
                lemma_reg_map_dom(w, reg_key(r));
                let i = choose|i: int| 0 <= i < w.len() && reg_key(#[trigger] w[i]) == reg_key(r);
                assert(v[i] == w[i]);
            }
        }
        assert forall|j: int| 0 <= j < e.len() implies reg_map(v).dom().contains((c, (#[trigger] e[j]).0))
            && reg_map(v)[(c, e[j].0)] == e[j].1 by {
            if j < old_e.len() {
                assert(e[j] == old_e[j]);
                if (c, e[j].0) == reg_key(r) {
                    lemma_reg_map_dom(w, reg_key(r));
                    let i = choose|i: int| 0 <= i < w.len() && reg_key(#[trigger] w[i]) == reg_key(r);
                    assert(v[i] == w[i]);
                }
            }
        }
    }
}

/// The users in a channel, by the port map.
pub open spec fn channel_members(ports: Map<(Seq<char>, Seq<char>), u16>, channel_id: Seq<char>) -> Set<Seq<char>> {
    Set::new(|k: Seq<char>| ports.dom().contains((channel_id, k)))
}

/// Whether a channel has a participant, by the port map.
pub open spec fn channel_active(ports: Map<(Seq<char>, Seq<char>), u16>, channel_id: Seq<char>) -> bool {
    exists|k: Seq<char>| #[trigger] ports.dom().contains((channel_id, k))
}

/// Who is in which voice channel. A channel is listed exactly while it
/// has a participant.
pub struct VoiceRoster {
    regs: Vec<VoiceRegistration>,
}

impl VoiceRoster {
    #[verifier::type_invariant]
    closed spec fn wf(self) -> bool {
        regs_unique(self.regs@)
    }

    /// The port of each (channel, user) registered.
    pub closed spec fn ports(&self) -> Map<(Seq<char>, Seq<char>), u16> {
        reg_map(self.regs@)
    }

    /// An empty roster.
    pub fn new() -> (res: VoiceRoster)
        ensures
            res.ports() == Map::<(Seq<char>, Seq<char>), u16>::empty(),
    {
        VoiceRoster { regs: Vec::new() }
    }

    fn without(regs: &Vec<VoiceRegistration>, channel_id: &str, public_key: &str) -> (res: Vec<VoiceRegistration>)
        requires
            regs_unique(regs@),
        ensures
            res@ == without_spec(regs@, (channel_id@, public_key@)),
            regs_unique(res@),
            reg_map(res@) == reg_map(regs@).remove((channel_id@, public_key@)),
            forall|j: int| 0 <= j < res@.len() ==> reg_key(#[trigger] res@[j]) != (channel_id@, public_key@),
    {
        let ghost key = (channel_id@, public_key@);
        let mut out: Vec<VoiceRegistration> = Vec::new();
        let mut i: usize = 0;
        while i < regs.len()
            invariant
                0 <= i <= regs@.len(),
                key == (channel_id@, public_key@),
                out@ == without_spec(regs@.take(i as int), key),
            decreases regs@.len() - i,
        {
            proof {
                assert(regs@.take(i as int + 1).drop_last() =~= regs@.take(i as int));
                assert(regs@.take(i as int + 1).last() == regs@[i as int]);
            }
            let r = &regs[i];
            let same = str_eq(r.channel_id.as_str(), channel_id) && str_eq(r.public_key.as_str(), public_key);
            let ghost old_out = out@;
            if !same {
                out.push(VoiceRegistration {
                    channel_id: r.channel_id.clone(),
                    public_key: r.public_key.clone(),
                    udp_port: r.udp_port,
                });
                assert(out@ == old_out.push(regs@[i as int]));
            }
            proof {
                assert(same == (reg_key(regs@[i as int]) == key));
                assert(without_spec(regs@.take(i as int + 1), key) == (if reg_key(regs@[i as int]) == key {
                    without_spec(regs@.take(i as int), key)
                } else {
                    without_spec(regs@.take(i as int), key).push(regs@[i as int])
                }));
            }
            i = i + 1;
        }
        proof {
            assert(regs@.take(regs@.len() as int) =~= regs@);
            lemma_without(regs@, key);
        }
        out
    }

    /// Registers a user in a voice channel at a port, replacing an earlier
    /// registration of the same user in that channel.
    pub fn join(&mut self, channel_id: &str, public_key: &str, udp_port: u16)
        ensures
            final(self).ports() == old(self).ports().insert((channel_id@, public_key@), udp_port),
    {
        proof {
            use_type_invariant(&*self);
        }
        let mut regs = Self::without(&self.regs, channel_id, public_key);
        let ghost before = regs@;
        regs.push(VoiceRegistration {
            channel_id: String::from_str(channel_id),
            public_key: String::from_str(public_key),
            udp_port,
        });
        proof {
            assert(regs@.drop_last() =~= before);
            assert forall|a: int, b: int| 0 <= a < b < regs@.len() implies reg_key(#[trigger] regs@[a]) != reg_key(#[trigger] regs@[b]) by {
                assert(regs@[a] == before[a]);
                if b < before.len() {
                    assert(regs@[b] == before[b]);
                } else {
                    assert(reg_key(regs@[b]) == (channel_id@, public_key@));
                }
            }
            assert(reg_map(regs@) =~= reg_map(before).insert((channel_id@, public_key@), udp_port));
        }
        self.regs = regs;
    }

    /// Takes a user out of a voice channel. A channel left empty is no
    /// longer listed.
    pub fn leave(&mut self, channel_id: &str, public_key: &str)
        ensures
            final(self).ports() == old(self).ports().remove((channel_id@, public_key@)),
    {
        proof {
            use_type_invariant(&*self);
        }
        let regs = Self::without(&self.regs, channel_id, public_key);
        self.regs = regs;
    }

    /// The participants of a voice channel with their ports, each once.
    pub fn participants(&self, channel_id: &str) -> (res: Vec<(String, u16)>)
        ensures
            forall|k: Seq<char>| self.ports().dom().contains((channel_id@, k)) <==> exists|j: int| 0 <= j < res@.len() && (#[trigger] res@[j]).0@ == k,
            forall|j: int| 0 <= j < res@.len() ==> self.ports()[(channel_id@, (#[trigger] res@[j]).0@)] == res@[j].1,
            forall|a: int, b: int| 0 <= a < b < res@.len() ==> (#[trigger] res@[a]).0@ != (#[trigger] res@[b]).0@,
    {
        proof {
            use_type_invariant(self);
        }
        let ghost c = channel_id@;
        let mut out: Vec<(String, u16)> = Vec::new();
        let mut i: usize = 0;
        while i < self.regs.len()
            invariant
                0 <= i <= self.regs@.len(),
                c == channel_id@,
                out@.len() == channel_entries(self.regs@.take(i as int), c).len(),
                forall|j: int| 0 <= j < out@.len() ==> (#[trigger] out@[j]).0@ == channel_entries(self.regs@.take(i as int), c)[j].0
                    && out@[j].1 == channel_entries(self.regs@.take(i as int), c)[j].1,
            decreases self.regs@.len() - i,
        {
            proof {
                assert(self.regs@.take(i as int + 1).drop_last() =~= self.regs@.take(i as int));
                assert(self.regs@.take(i as int + 1).last() == self.regs@[i as int]);
            }
            let r = &self.regs[i];
            let ghost old_out = out@;
            let ghost ce = channel_entries(self.regs@.take(i as int), c);
            let hit = str_eq(r.channel_id.as_str(), channel_id);
            if hit {
                out.push((r.public_key.clone(), r.udp_port));
            }
            proof {
                let ne = channel_entries(self.regs@.take(i as int + 1), c);
                assert(ne == (if self.regs@[i as int].channel_id@ == c {
                    ce.push((self.regs@[i as int].public_key@, self.regs@[i as int].udp_port))
                } else {
                    ce
                }));
                assert forall|j: int| 0 <= j < out@.len() implies (#[trigger] out@[j]).0@ == ne[j].0 && out@[j].1 == ne[j].1 by {
                    if j < old_out.len() {
                        assert(out@[j] == old_out[j]);
                        assert(ne[j] == ce[j]);
                    }
                }
            }
            i = i + 1;
        }
        proof {
            assert(self.regs@.take(self.regs@.len() as int) =~= self.regs@);
            lemma_channel_entries(self.regs@, c);
            let e = channel_entries(self.regs@, c);
            assert forall|k: Seq<char>| self.ports().dom().contains((c, k)) <==> exists|j: int| 0 <= j < out@.len() && (#[trigger] out@[j]).0@ == k by {
                if self.ports().dom().contains((c, k)) {
                    let j = choose|j: int| 0 <= j < e.len() && (#[trigger] e[j]).0 == k;
                    assert(out@[j].0@ == k);
                }
                if exists|j: int| 0 <= j < out@.len() && (#[trigger] out@[j]).0@ == k {
                    let j = choose|j: int| 0 <= j < out@.len() && (#[trigger] out@[j]).0@ == k;
                    assert(e[j].0 == k);
                }
            }
            assert forall|j: int| 0 <= j < out@.len() implies self.ports()[(c, (#[trigger] out@[j]).0@)] == out@[j].1 by {
                assert(e[j].0 == out@[j].0@);
            }
            assert forall|a: int, b: int| 0 <= a < b < out@.len() implies (#[trigger] out@[a]).0@ != (#[trigger] out@[b]).0@ by {
                assert(e[a].0 == out@[a].0@);
                assert(e[b].0 == out@[b].0@);
            }
        }
        out
    }

    /// The number of participants of a voice channel.
    pub fn population(&self, channel_id: &str) -> (res: usize)
        ensures
            res == channel_members(self.ports(), channel_id@).len(),
    {
        let p = self.participants(channel_id);
        proof {
            let keys = p@.map_values(|q: (String, u16)| q.0@);
            assert(keys.no_duplicates()) by {
                assert forall|a: int, b: int| 0 <= a < keys.len() && 0 <= b < keys.len() && a != b implies keys[a] != keys[b] by {
                    if a < b {
                        assert(p@[a].0@ != p@[b].0@);
                    } else {
                        assert(p@[b].0@ != p@[a].0@);
                    }
                }
            }
            assert(keys.to_set() =~= channel_members(self.ports(), channel_id@)) by {
                assert forall|k: Seq<char>| keys.to_set().contains(k) <==> channel_members(self.ports(), channel_id@).contains(k) by {
                    if keys.to_set().contains(k) {
                        let j = choose|j: int| 0 <= j < keys.len() && keys[j] == k;
                        assert(p@[j].0@ == k);
                    }
                    if channel_members(self.ports(), channel_id@).contains(k) {
                        let j = choose|j: int| 0 <= j < p@.len() && (#[trigger] p@[j]).0@ == k;
                        assert(keys[j] == k);
                    }
                }
            }
            keys.unique_seq_to_set();
        }
        p.len()
    }

    /// The population of every voice channel that has participants, each
    /// channel once; channels without participants are not listed.
    pub fn populations(&self) -> (res: Vec<(String, usize)>)
        ensures
            forall|c: Seq<char>| #[trigger] channel_active(self.ports(), c) <==> exists|j: int| 0 <= j < res@.len() && (#[trigger] res@[j]).0@ == c,
            forall|j: int| 0 <= j < res@.len() ==> (#[trigger] res@[j]).1 == channel_members(self.ports(), res@[j].0@).len(),
            forall|a: int, b: int| 0 <= a < b < res@.len() ==> (#[trigger] res@[a]).0@ != (#[trigger] res@[b]).0@,
    {
        let mut out: Vec<(String, usize)> = Vec::new();
        let mut i: usize = 0;
        while i < self.regs.len()
            invariant
                0 <= i <= self.regs@.len(),
                forall|j: int| 0 <= j < out@.len() ==> (#[trigger] out@[j]).1 == channel_members(self.ports(), out@[j].0@).len(),
                forall|a: int, b: int| 0 <= a < b < out@.len() ==> (#[trigger] out@[a]).0@ != (#[trigger] out@[b]).0@,
                forall|k: int| 0 <= k < i ==> exists|j: int| 0 <= j < out@.len() && (#[trigger] out@[j]).0@ == (#[trigger] self.regs@[k]).channel_id@,
                forall|j: int| 0 <= j < out@.len() ==> exists|k: int| 0 <= k < self.regs@.len() && (#[trigger] self.regs@[k]).channel_id@ == (#[trigger] out@[j]).0@,
            decreases self.regs@.len() - i,
        {
            let ghost old_out = out@;
            let c = &self.regs[i].channel_id;
            if !Self::listed(&out, c.as_str()) {
                let n = self.population(c.as_str());
                out.push((c.clone(), n));
                proof {
                    assert forall|a: int, b: int| 0 <= a < b < out@.len() implies (#[trigger] out@[a]).0@ != (#[trigger] out@[b]).0@ by {
                        assert(out@[a] == old_out[a]);
                        if b < old_out.len() {
                            assert(out@[b] == old_out[b]);
                        }
                    }
                }
            }
            proof {
                assert forall|k: int| 0 <= k < i + 1 implies exists|j: int| 0 <= j < out@.len() && (#[trigger] out@[j]).0@ == (#[trigger] self.regs@[k]).channel_id@ by {
                    if k < i {
                        let j = choose|j: int| 0 <= j < old_out.len() && (#[trigger] old_out[j]).0@ == (#[trigger] self.regs@[k]).channel_id@;
                        assert(out@[j] == old_out[j]);
                    } else if old_out.len() < out@.len() {
                        assert(out@[out@.len() - 1].0@ == self.regs@[k].channel_id@);
                    } else {
                        let j = choose|j: int| 0 <= j < old_out.len() && (#[trigger] old_out[j]).0@ == c@;
                        assert(out@[j] == old_out[j]);
                    }
                }
                assert forall|j: int| 0 <= j < out@.len() implies exists|k: int| 0 <= k < self.regs@.len() && (#[trigger] self.regs@[k]).channel_id@ == (#[trigger] out@[j]).0@ by {
                    if j < old_out.len() {
                        assert(out@[j] == old_out[j]);
                        let k = choose|k: int| 0 <= k < self.regs@.len() && (#[trigger] self.regs@[k]).channel_id@ == (#[trigger] old_out[j]).0@;
                    } else {
                        assert(self.regs@[i as int].channel_id@ == out@[j].0@);
                    }
                }
                assert forall|j: int| 0 <= j < out@.len() implies (#[trigger] out@[j]).1 == channel_members(self.ports(), out@[j].0@).len() by {
                    if j < old_out.len() {
                        assert(out@[j] == old_out[j]);
                    }
                }
            }
            i = i + 1;
        }
        proof {
            assert forall|c: Seq<char>| #[trigger] channel_active(self.ports(), c) <==> exists|j: int| 0 <= j < out@.len() && (#[trigger] out@[j]).0@ == c by {
                if exists|k: Seq<char>| #[trigger] self.ports().dom().contains((c, k)) {
                    let k = choose|k: Seq<char>| #[trigger] self.ports().dom().contains((c, k));
                    lemma_reg_map_dom(self.regs@, (c, k));
                    let m = choose|m: int| 0 <= m < self.regs@.len() && reg_key(#[trigger] self.regs@[m]) == (c, k);
                    assert(self.regs@[m].channel_id@ == c);
                }
                if exists|j: int| 0 <= j < out@.len() && (#[trigger] out@[j]).0@ == c {
                    let j = choose|j: int| 0 <= j < out@.len() && (#[trigger] out@[j]).0@ == c;
                    let m = choose|m: int| 0 <= m < self.regs@.len() && (#[trigger] self.regs@[m]).channel_id@ == (#[trigger] out@[j]).0@;
                    lemma_reg_map_dom(self.regs@, reg_key(self.regs@[m]));
                    assert(self.ports().dom().contains((c, self.regs@[m].public_key@)));
                }
            }
        }
        out
    }

    fn listed(out: &Vec<(String, usize)>, c: &str) -> (res: bool)
        ensures
            res == exists|j: int| 0 <= j < out@.len() && (#[trigger] out@[j]).0@ == c@,
    {
        let mut j: usize = 0;
        while j < out.len()
            invariant
                0 <= j <= out@.len(),
                forall|m: int| 0 <= m < j ==> (#[trigger] out@[m]).0@ != c@,
            decreases out@.len() - j,
        {
            if str_eq(out[j].0.as_str(), c) {
                assert(out@[j as int].0@ == c@);
                return true;
            }
            j = j + 1;
        }
        false
    }

    /// Whether any user is in a voice channel.
    pub fn has_channel(&self, channel_id: &str) -> (res: bool)
        ensures
            res == channel_active(self.ports(), channel_id@),
    {
        let p = self.participants(channel_id);
        if p.len() > 0 {
            assert(self.ports().dom().contains((channel_id@, p@[0].0@)));
            true
        } else {
            false
        }
    }
}

/// A user who joins a channel is in it at the given port, and leaving
/// takes them out; nobody else's place changes either way.
pub proof fn law_join_then_leave(
    ports: Map<(Seq<char>, Seq<char>), u16>,
    channel_id: Seq<char>,
    public_key: Seq<char>,
    udp_port: u16,
    other: (Seq<char>, Seq<char>),
)
    requires
        other != (channel_id, public_key),
    ensures
        ports.insert((channel_id, public_key), udp_port)[(channel_id, public_key)] == udp_port,
        !ports.insert((channel_id, public_key), udp_port).remove((channel_id, public_key)).dom().contains((channel_id, public_key)),
        ports.insert((channel_id, public_key), udp_port).remove((channel_id, public_key)).dom().contains(other) == ports.dom().contains(other),
        ports.dom().contains(other) ==> ports.insert((channel_id, public_key), udp_port).remove((channel_id, public_key))[other] == ports[other],
{
}

/// A joined channel is active with the joiner among its members; when its
/// last member leaves it is no longer listed.
pub proof fn law_channel_lives_while_occupied(
    ports: Map<(Seq<char>, Seq<char>), u16>,
    channel_id: Seq<char>,
    public_key: Seq<char>,
    udp_port: u16,
)
    ensures
        channel_active(ports.insert((channel_id, public_key), udp_port), channel_id),
        channel_members(ports.insert((channel_id, public_key), udp_port), channel_id) == channel_members(ports, channel_id).insert(public_key),
        channel_members(ports, channel_id) =~= set![public_key] ==> !channel_active(ports.remove((channel_id, public_key)), channel_id),
{
    assert(ports.insert((channel_id, public_key), udp_port).dom().contains((channel_id, public_key)));
    assert(channel_members(ports.insert((channel_id, public_key), udp_port), channel_id) =~= channel_members(ports, channel_id).insert(public_key));
    if channel_members(ports, channel_id) =~= set![public_key] {
        assert forall|k: Seq<char>| !ports.remove((channel_id, public_key)).dom().contains((channel_id, k)) by {
            if ports.remove((channel_id, public_key)).dom().contains((channel_id, k)) {
                assert(channel_members(ports, channel_id).contains(k));
            }
        }
    }
}

/// The sample rate used for Opus: the device's rate when Opus supports it
/// (8, 12, 16, 24 or 48 kHz), 48 kHz otherwise.
pub fn resolve_opus_rate(device_rate: u32) -> (res: u32)
    ensures
        res == if device_rate == 8000 || device_rate == 12000 || device_rate == 16000 || device_rate == 24000
            || device_rate == 48000 {
            device_rate
        } else {
            48000
        },
{
    if device_rate == 8000 || device_rate == 12000 || device_rate == 16000 || device_rate == 24000 || device_rate == 48000 {
        device_rate
    } else {
        48000
    }
}

/// How long a sender stays "speaking" after its last loud frame, in ms.
pub const VAD_RELEASE_MS: u64 = 250;

/// The voice-activity switch of a sending client.
#[derive(Clone, Copy, Debug)]
pub struct VadState {
    pub is_speaking: bool,
    /// When the last loud frame was seen, in ms on a monotonic clock.
    pub last_active_at: Option<u64>,
}

/// The switch after one tick at `now_ms`: `frame` is `None` when no audio
/// arrived, else whether the frame was loud. The second part is the change
/// to announce, if any.
pub open spec fn vad_step_spec(s: VadState, frame: Option<bool>, now_ms: u64) -> (VadState, Option<bool>) {
    let released = s.is_speaking && (s.last_active_at matches Some(t) && (if now_ms >= t { now_ms - t } else { 0 }) > VAD_RELEASE_MS);
    match frame {
        Some(true) => if s.is_speaking {
            (VadState { is_speaking: true, last_active_at: Some(now_ms) }, None)
        } else {
            (VadState { is_speaking: true, last_active_at: Some(now_ms) }, Some(true))
        },
        _ => if released {
            (VadState { is_speaking: false, ..s }, Some(false))
        } else {
            (s, None)
        },
    }
}

impl VadState {
    /// Silent, never active.
    pub fn new() -> (res: VadState)
        ensures
            !res.is_speaking,
            res.last_active_at is None,
    {
        VadState { is_speaking: false, last_active_at: None }
    }

    /// Advances the switch by one tick and returns the change to announce.
    pub fn step(&mut self, frame: Option<bool>, now_ms: u64) -> (res: Option<bool>)
        ensures
            (*final(self), res) == vad_step_spec(*old(self), frame, now_ms),
    {
        match frame {
            Some(true) => {
                self.last_active_at = Some(now_ms);
                if !self.is_speaking {
                    self.is_speaking = true;
                    Some(true)
                } else {
                    None
                }
            },
            _ => {
                if self.is_speaking {
                    match self.last_active_at {
                        Some(last) => {
                            if now_ms.saturating_sub(last) > VAD_RELEASE_MS {
                                self.is_speaking = false;
                                return Some(false);
                            }
                            None
                        },
                        None => None,
                    }
                } else {
                    None
                }
            },
        }
    }
}

/// The switch announces only real changes: an announced value is the new
/// state and differs from the old one, and without an announcement the
/// state stays. A loud frame always leaves the sender speaking.
pub proof fn law_vad_announces_changes_only(s: VadState, frame: Option<bool>, now_ms: u64)
    ensures
        ({
            let (n, out) = vad_step_spec(s, frame, now_ms);
            &&& out matches Some(b) ==> b == n.is_speaking && b != s.is_speaking
            &&& out is None ==> n.is_speaking == s.is_speaking
            &&& frame == Some(true) ==> n.is_speaking
        }),
{
}

/// A speaker is released only after more than the release time without
/// a loud frame.
pub proof fn law_vad_release_waits(s: VadState, frame: Option<bool>, now_ms: u64, last: u64)
    requires
        s.is_speaking,
        s.last_active_at == Some(last),
        now_ms <= last + VAD_RELEASE_MS,
    ensures
        vad_step_spec(s, frame, now_ms).0.is_speaking,
{
}

/// The header of the packet after one carrying `(sequence, timestamp)`:
/// both advance, wrapping, by one and by the frame size.
pub fn next_packet_header(sequence: u16, timestamp: u32, frame_size: u32) -> (res: (u16, u32))
    ensures
        res.0 == (if sequence == u16::MAX { 0 } else { sequence + 1 }),
        res.1 == (timestamp + frame_size) % 0x1_0000_0000,
{
    let s = sequence.wrapping_add(1);
    let t = timestamp.wrapping_add(frame_size);
    (s, t)
}

/// The device to open for a preferred name: the position of the first
/// device of that name, or `None` to fall back to the default device (no
/// preference, or no such device).
pub fn preferred_device_index(names: &Vec<String>, preferred: Option<&str>) -> (res: Option<usize>)
    ensures
        res matches Some(i) ==> preferred is Some && is_first_index(texts(names@), preferred->0@, i as int),
        res is None ==> preferred is None || !texts(names@).contains(preferred->0@),
{
    let p = match preferred {
        Some(p) => p,
        None => return None,
    };
    let mut i: usize = 0;
    while i < names.len()
        invariant
            0 <= i <= names@.len(),
            preferred == Some(p),
            forall|j: int| 0 <= j < i ==> (#[trigger] names@[j])@ != p@,
        decreases names@.len() - i,
    {
        if str_eq(names[i].as_str(), p) {
            proof {
                assert(texts(names@).len() == names@.len());
                assert(texts(names@)[i as int] == names@[i as int]@);
                assert forall|j: int| 0 <= j < i implies texts(names@)[j] != p@ by {
                    assert(texts(names@)[j] == names@[j]@);
                }
            }
            return Some(i);
        }
        i = i + 1;
    }
    proof {
        if texts(names@).contains(p@) {
            let k = choose|k: int| 0 <= k < texts(names@).len() && texts(names@)[k] == p@;
            assert(names@[k]@ == p@);
        }
    }
    None
}

/// Whether `p` is the first position of `d` in `names`.
pub open spec fn is_first_index(names: Seq<Seq<char>>, d: Seq<char>, p: int) -> bool {
    0 <= p < names.len() && names[p] == d && forall|j: int| 0 <= j < p ==> names[j] != d
}

proof fn lemma_first_index_unique(names: Seq<Seq<char>>, d: Seq<char>, p: int)
    requires
        is_first_index(names, d, p),
    ensures
        (choose|q: int| is_first_index(names, d, q)) == p,
{
    let q = choose|q: int| is_first_index(names, d, q);
    assert(is_first_index(names, d, q));
    if q < p {
        assert(names[q] != d);
    } else if q > p {
        assert(names[p] != d);
    }
}

/// Device names with the default device moved to the front, when it is
/// listed; the others keep their order.
pub open spec fn default_first_spec(names: Seq<Seq<char>>, default: Option<Seq<char>>) -> Seq<Seq<char>> {
    match default {
        Some(d) => if exists|p: int| is_first_index(names, d, p) {
            let p = choose|p: int| is_first_index(names, d, p);
            seq![d] + names.remove(p)
        } else {
            names
        },
        None => names,
    }
}

/// The texts of a list of strings.
pub open spec fn texts(v: Seq<String>) -> Seq<Seq<char>> {
    v.map_values(|s: String| s@)
}

/// Puts the default device first in a list of device names.
pub fn default_first(names: Vec<String>, default: Option<String>) -> (res: Vec<String>)
    ensures
        texts(res@) == default_first_spec(texts(names@), match default { Some(d) => Some(d@), None => None }),
{
    let d = match default {
        Some(d) => d,
        None => return names,
    };
    let mut pos: usize = 0;
    while pos < names.len() && !str_eq(names[pos].as_str(), d.as_str())
        invariant
            0 <= pos <= names@.len(),
            forall|j: int| 0 <= j < pos ==> (#[trigger] names@[j])@ != d@,
        decreases names@.len() - pos,
    {
        pos = pos + 1;
    }
    if pos == names.len() {
        proof {
            assert forall|p: int| !is_first_index(texts(names@), d@, p) by {
                if 0 <= p < names@.len() {
                    assert(texts(names@)[p] == names@[p]@);
                }
            }
        }
        return names;
    }
    let mut out = names;
    let ghost before = out@;
    let _ = out.remove(pos);
    out.insert(0, d);
    proof {
        assert(is_first_index(texts(before), d@, pos as int)) by {
            assert forall|j: int| 0 <= j < pos implies texts(before)[j] != d@ by {
                assert(texts(before)[j] == before[j]@);
            }
        }
        lemma_first_index_unique(texts(before), d@, pos as int);
        assert(exists|q: int| is_first_index(texts(before), d@, q));
        assert(texts(out@) =~= seq![d@] + texts(before).remove(pos as int));
        assert(exists|p: int| is_first_index(texts(before), d@, p));
        assert(default_first_spec(texts(before), Some(d@)) == seq![d@] + texts(before).remove(pos as int));
    }
    out
}

/// A speaker is released by the first tick without a loud frame (a quiet
/// frame or none) that comes more than the release time after their last
/// loud frame, and that release is announced.
pub proof fn law_vad_releases_after_quiet(s: VadState, frame: Option<bool>, now_ms: u64, last: u64)
    requires
        s.is_speaking,
        s.last_active_at == Some(last),
        now_ms > last + VAD_RELEASE_MS,
        frame != Some(true),
    ensures
        vad_step_spec(s, frame, now_ms) == (VadState { is_speaking: false, last_active_at: Some(last) }, Some(false)),
{
}

/// A loud frame marks the sender active now; it is announced only when the
/// sender was silent. A tick without a loud frame never makes a silent
/// sender speak, and leaves the time of the last loud frame alone.
pub proof fn law_vad_loud_and_quiet(s: VadState, frame: Option<bool>, now_ms: u64)
    ensures
        frame == Some(true) ==> vad_step_spec(s, frame, now_ms) == (VadState { is_speaking: true, last_active_at: Some(now_ms) }, if s.is_speaking { None::<bool> } else { Some(true) }),
        frame != Some(true) ==> vad_step_spec(s, frame, now_ms).0.last_active_at == s.last_active_at,
        frame != Some(true) && !s.is_speaking ==> vad_step_spec(s, frame, now_ms) == (s, None::<bool>),
{
}

} // verus!
