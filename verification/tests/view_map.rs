use builder_core::commitment::{BuilderCommitment, VidCommitment};
use builder_core::view_map::{BlockId, BuilderStateId, ViewKey, ViewMap};

#[derive(Clone, Copy, Debug, PartialEq)]
struct Slot(u64, u8);

impl ViewKey for Slot {
    fn key_view(&self) -> u64 {
        self.0
    }

    fn view_number(&self) -> u64 {
        self.0
    }

    fn same_key(&self, other: &Self) -> bool {
        self == other
    }
}

fn vid(b: u8) -> VidCommitment {
    VidCommitment::from_bytes([b; 32])
}

#[test]
fn insert_then_get_returns_the_value() {
    let mut m: ViewMap<BuilderStateId, u32> = ViewMap::new();
    assert!(m.is_empty());
    let k = BuilderStateId { parent_commitment: vid(1), view: 3 };
    assert_eq!(m.insert(k, 7), None);
    assert_eq!(m.get(&k), Some(&7));
    assert_eq!(m.insert(k, 9), Some(7));
    assert_eq!(m.get(&k), Some(&9));
    assert_eq!(m.len(), 1);
}

#[test]
fn user_keys_work() {
    let mut m: ViewMap<Slot, u32> = ViewMap::new();
    m.insert(Slot(1, 0), 10);
    m.insert(Slot(2, 0), 20);
    m.insert(Slot(2, 1), 21);
    m.retain_from(2);
    assert_eq!(m.get(&Slot(1, 0)), None);
    assert_eq!(m.get(&Slot(2, 1)), Some(&21));
    assert!(m.has_view(2));
    assert!(!m.has_view(1));
    let _ = BlockId { hash: BuilderCommitment::from_bytes([0; 32]), view: 0 };
}

#[test]
fn the_greatest_view_is_found() {
    let mut m: ViewMap<Slot, u32> = ViewMap::new();
    assert!(m.greatest().is_none());
    m.insert(Slot(4, 0), 40);
    m.insert(Slot(9, 0), 90);
    m.insert(Slot(2, 0), 20);
    assert_eq!(m.greatest(), Some((Slot(9, 0), &90)));
    m.insert(Slot(9, 1), 91);
    let (key, value) = m.greatest().unwrap();
    assert_eq!(key.0, 9);
    assert_eq!(m.get(&key), Some(value));
    m.retain_from(10);
    assert!(m.greatest().is_none());
}
