use cid::Cid;
use fvm::testing::{RandomnessKind, RandomnessMatch, TestExterns, TipsetCid, TipsetNotFound};

#[test]
fn randomness_replay_matches_and_falls_back() {
    let entries = vec![
        RandomnessMatch {
            kind: RandomnessKind::Chain,
            pers: 1,
            round: 10,
            entropy: vec![1, 2],
            ret: [7u8; 32],
        },
        RandomnessMatch {
            kind: RandomnessKind::Beacon,
            pers: 1,
            round: 10,
            entropy: vec![1, 2],
            ret: [9u8; 32],
        },
        RandomnessMatch {
            kind: RandomnessKind::Chain,
            pers: 1,
            round: 10,
            entropy: vec![1, 2],
            ret: [8u8; 32],
        },
    ];
    let e = TestExterns::new(&entries);
    // The first matching entry answers, keyed by kind, tag, round, entropy.
    assert_eq!(e.get_chain_randomness(1, 10, &vec![1, 2]), [7u8; 32]);
    assert_eq!(e.get_beacon_randomness(1, 10, &vec![1, 2]), [9u8; 32]);
    // Differing entropy, round or tag: nothing recorded, the fallback answers.
    assert_eq!(e.get_chain_randomness(1, 10, &vec![1, 3]), [0u8; 32]);
    assert_eq!(e.get_chain_randomness(2, 10, &vec![1, 2]), [0u8; 32]);
    assert_eq!(e.get_beacon_randomness(1, 11, &vec![1, 2]), [0u8; 32]);
}

#[test]
fn tipset_lookup_finds_recorded_epoch() {
    let mh = cid::multihash::Multihash::wrap(0, b"header").expect("wrap");
    let recorded = Cid::new_v1(0x55, mh);
    let mut e = TestExterns::new(&Vec::new());
    assert_eq!(e.get_tipset_cid(5), Err(TipsetNotFound));
    e.tipset_cids.push(TipsetCid { epoch: 5, cid: recorded });
    e.tipset_cids.push(TipsetCid {
        epoch: 5,
        cid: Cid::default(),
    });
    // The first recorded entry for the epoch answers, unchanged.
    assert_eq!(e.get_tipset_cid(5), Ok(recorded));
    assert_eq!(e.get_tipset_cid(6), Err(TipsetNotFound));
}
