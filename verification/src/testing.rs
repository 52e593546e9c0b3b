use vstd::prelude::*;

verus! {

/// Which randomness source a recorded lookup answers.
#[derive(Debug, Eq, PartialEq, Copy, Clone, Structural)]
pub enum RandomnessKind {
    Chain,
    Beacon,
}

/// A recorded randomness lookup: the request it answers, keyed by purpose
/// tag, round and entropy, and the 32-byte value to replay for it.
pub struct RandomnessMatch {
    pub kind: RandomnessKind,
    pub pers: i64,
    pub round: i64,
    pub entropy: Vec<u8>,
    pub ret: [u8; 32],
}

/// The recorded randomness a test vector carries.
pub type Randomness = Vec<RandomnessMatch>;

/// Whether a recorded entry answers the given request.
pub open spec fn rand_match(
    e: RandomnessMatch,
    kind: RandomnessKind,
    pers: i64,
    round: i64,
    entropy: Seq<u8>,
) -> bool {
    e.kind == kind && e.pers == pers && e.round == round && e.entropy@ == entropy
}

/// The replayed value for a request: the 32-byte value of the first recorded
/// entry that answers it, if any does.
pub open spec fn replay_lookup(
    entries: Seq<RandomnessMatch>,
    kind: RandomnessKind,
    pers: i64,
    round: i64,
    entropy: Seq<u8>,
) -> Option<[u8; 32]>
    decreases entries.len(),
{
    if entries.len() == 0 {
        None
    } else if rand_match(entries[0], kind, pers, round, entropy) {
        Some(entries[0].ret)
    } else {
        replay_lookup(entries.drop_first(), kind, pers, round, entropy)
    }
}

/// The first recorded tipset identifier for an epoch, if one is recorded.
pub open spec fn tipset_lookup(s: Seq<TipsetCid>, epoch: i64) -> Option<cid::Cid>
    decreases s.len(),
{
    if s.len() == 0 {
        None
    } else if s[0].epoch == epoch {
        Some(s[0].cid)
    } else {
        tipset_lookup(s.drop_first(), epoch)
    }
}

/// Relies on Cid being Copy: hands back the very same identifier.
#[verifier::external_body]
fn copy_cid(c: &cid::Cid) -> (r: cid::Cid)
    ensures
        r == *c,
{
    *c
}

fn copy_bytes(v: &Vec<u8>) -> (r: Vec<u8>)
    ensures
        r@ == v@,
{
    let mut out: Vec<u8> = Vec::new();
    let mut i: usize = 0;
    while i < v.len()
        invariant
            i <= v@.len(),
            out@.len() == i as int,
            forall|k: int| 0 <= k < i as int ==> out@[k] == v@[k],
        decreases v@.len() - i,
    {
        out.push(v[i]);
        i += 1;
    }
    proof {
        assert(out@ =~= v@);
    }
    out
}

/// Replays randomness stored in a recorded vector: a request is answered
/// with the first matching recorded value, and with a fixed fallback when
/// nothing matching was recorded.
pub struct ReplayingRand {
    recorded: Vec<RandomnessMatch>,
}

/// The bytes of the fallback value a replayer answers with when nothing was
/// recorded for a request: 32 zero bytes.
pub open spec fn fallback_randomness() -> Seq<u8> {
    Seq::new(32, |i: int| 0u8)
}

impl ReplayingRand {
    pub closed spec fn spec_recorded(&self) -> Seq<RandomnessMatch> {
        self.recorded@
    }

    /// Creates a replayer over a copy of the recorded entries.
    pub fn new(recorded: &Vec<RandomnessMatch>) -> (r: ReplayingRand)
        ensures
            r.spec_recorded().len() == recorded@.len(),
            forall|j: int|
                0 <= j < recorded@.len() ==> {
                    &&& #[trigger] r.spec_recorded()[j].kind == recorded@[j].kind
                    &&& r.spec_recorded()[j].pers == recorded@[j].pers
                    &&& r.spec_recorded()[j].round == recorded@[j].round
                    &&& r.spec_recorded()[j].entropy@ == recorded@[j].entropy@
                    &&& r.spec_recorded()[j].ret == recorded@[j].ret
                },
    {
        let mut out: Vec<RandomnessMatch> = Vec::new();
        let mut i: usize = 0;
        while i < recorded.len()
            invariant
                i <= recorded@.len(),
                out@.len() == i as int,
                forall|j: int|
                    0 <= j < i as int ==> {
                        &&& #[trigger] out@[j].kind == recorded@[j].kind
                        &&& out@[j].pers == recorded@[j].pers
                        &&& out@[j].round == recorded@[j].round
                        &&& out@[j].entropy@ == recorded@[j].entropy@
                        &&& out@[j].ret == recorded@[j].ret
                    },
            decreases recorded@.len() - i,
        {
            let e = &recorded[i];
            out.push(
                RandomnessMatch {
                    kind: e.kind,
                    pers: e.pers,
                    round: e.round,
                    entropy: copy_bytes(&e.entropy),
                    ret: e.ret,
                },
            );
            i += 1;
        }
        ReplayingRand { recorded: out }
    }

    /// Answers a request from the recorded entries: the first match wins,
    /// and the fixed fallback answers when nothing matches.
    pub fn get(&self, kind: RandomnessKind, pers: i64, round: i64, entropy: &Vec<u8>) -> (r: [u8;
        32])
        ensures
            match replay_lookup(self.spec_recorded(), kind, pers, round, entropy@) {
                Some(v) => r == v,
                None => r@ == fallback_randomness(),
            },
    {
        let s = &self.recorded;
        let mut i: usize = 0;
        proof {
            assert(s@.skip(0) =~= s@);
        }
        while i < s.len()
            invariant
                i <= s@.len(),
                s@ == self.spec_recorded(),
                replay_lookup(s@.skip(i as int), kind, pers, round, entropy@) == replay_lookup(
                    s@,
                    kind,
                    pers,
                    round,
                    entropy@,
                ),
            decreases s@.len() - i,
        {
            let e = &s[i];
            proof {
                assert(s@.skip(i as int)[0] == s@[i as int]);
                assert(s@.skip(i as int).drop_first() =~= s@.skip(i as int + 1));
            }
            let kind_hit = match (e.kind, kind) {
                (RandomnessKind::Chain, RandomnessKind::Chain) => true,
                (RandomnessKind::Beacon, RandomnessKind::Beacon) => true,
                _ => false,
            };
            if kind_hit && e.pers == pers && e.round == round && bytes_equal(&e.entropy, entropy) {
                return e.ret;
            }
            i += 1;
        }
        proof {
            assert(s@.skip(s@.len() as int) =~= Seq::<RandomnessMatch>::empty());
        }
        let fallback: [u8; 32] = [0u8; 32];
        proof {
            assert(fallback@ =~= fallback_randomness());
        }
        fallback
    }
}

fn bytes_equal(a: &Vec<u8>, b: &Vec<u8>) -> (r: bool)
    ensures
        r == (a@ == b@),
{
    if a.len() != b.len() {
        return false;
    }
    let mut i: usize = 0;
    while i < a.len()
        invariant
            a@.len() == b@.len(),
            i <= a@.len(),
            forall|k: int| 0 <= k < i as int ==> a@[k] == b@[k],
        decreases a@.len() - i,
    {
        if a[i] != b[i] {
            return false;
        }
        i += 1;
    }
    proof {
        assert(a@ =~= b@);
    }
    true
}

/// A recorded chain lookup entry: the tipset identifier at an epoch.
pub struct TipsetCid {
    pub epoch: i64,
    pub cid: cid::Cid,
}

/// The epoch asked about has no recorded tipset identifier.
#[derive(Debug, Eq, PartialEq, Copy, Clone, Structural)]
pub struct TipsetNotFound;

/// The externs stub for testing: answers randomness requests by replaying
/// recorded randomness, and chain lookups from a recorded tipset list.
pub struct TestExterns {
    pub tipset_cids: Vec<TipsetCid>,
    pub rand: ReplayingRand,
}

impl TestExterns {
    pub closed spec fn spec_recorded(&self) -> Seq<RandomnessMatch> {
        self.rand.spec_recorded()
    }

    /// Creates a new TestExterns from randomness contained in a vector.
    pub fn new(r: &Randomness) -> (s: TestExterns)
        ensures
            s.tipset_cids@ == Seq::<TipsetCid>::empty(),
            s.spec_recorded().len() == r@.len(),
    {
        TestExterns { tipset_cids: Vec::new(), rand: ReplayingRand::new(r) }
    }

    /// Replays a chain randomness request.
    pub fn get_chain_randomness(&self, pers: i64, round: i64, entropy: &Vec<u8>) -> (r: [u8; 32])
        ensures
            match replay_lookup(self.spec_recorded(), RandomnessKind::Chain, pers, round, entropy@) {
                Some(v) => r == v,
                None => r@ == fallback_randomness(),
            },
    {
        self.rand.get(RandomnessKind::Chain, pers, round, entropy)
    }

    /// Replays a beacon randomness request.
    pub fn get_beacon_randomness(&self, pers: i64, round: i64, entropy: &Vec<u8>) -> (r: [u8; 32])
        ensures
            match replay_lookup(self.spec_recorded(), RandomnessKind::Beacon, pers, round, entropy@) {
                Some(v) => r == v,
                None => r@ == fallback_randomness(),
            },
    {
        self.rand.get(RandomnessKind::Beacon, pers, round, entropy)
    }

    /// Looks up the recorded tipset identifier for an epoch: the first
    /// recorded entry for that epoch answers, and a missing epoch is a
    /// not-found failure.
    pub fn get_tipset_cid(&self, epoch: i64) -> (r: Result<cid::Cid, TipsetNotFound>)
        ensures
            (r is Ok) == (tipset_lookup(self.tipset_cids@, epoch) is Some),
            r matches Ok(c) ==> tipset_lookup(self.tipset_cids@, epoch) == Some(c),
    {
        let s = &self.tipset_cids;
        let mut i: usize = 0;
        proof {
            assert(s@.skip(0) =~= s@);
        }
        while i < s.len()
            invariant
                i <= s@.len(),
                s@ == self.tipset_cids@,
                tipset_lookup(s@.skip(i as int), epoch) == tipset_lookup(s@, epoch),
            decreases s@.len() - i,
        {
            proof {
                assert(s@.skip(i as int)[0] == s@[i as int]);
                assert(s@.skip(i as int).drop_first() =~= s@.skip(i as int + 1));
            }
            if s[i].epoch == epoch {
                return Ok(copy_cid(&s[i].cid));
            }
            i += 1;
        }
        proof {
            assert(s@.skip(s@.len() as int) =~= Seq::<TipsetCid>::empty());
        }
        Err(TipsetNotFound)
    }
}

} // verus!
