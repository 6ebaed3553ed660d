use std::sync::Arc;

use gen_indices::{GenIndex, GenIndexEntitySet};

const THREADS: u32 = 100;

#[test]
fn test_gen_index_generation() {
    let gi = GenIndexEntitySet::<u64, u64>::new();
    let chk = GenIndex::<u64, u64>::new(0, 0);

    // first index
    let idx1 = gi.lock().unwrap().next_index();
    assert_eq!(chk, idx1);

    // second index
    let chk2 = GenIndex::<u64, u64>::new(chk.get_index() + 1, chk.get_generation());
    let idx2 = gi.lock().unwrap().next_index();
    assert_eq!(chk2, idx2);

    // delete first index and then get next index
    let chk3 = GenIndex::<u64, u64>::new(chk.get_index(), chk.get_generation() + 1);
    if let Err(e) = gi.lock().unwrap().delete_index(idx1) {
        println!("Error: {}", e);
    }
    let idx3 = gi.lock().unwrap().next_index();
    assert_eq!(chk3, idx3);
}

#[test]
fn interleaved_pairs_through_shared_handle() {
    let gi = GenIndexEntitySet::<u64, u64>::new();
    let clients: Vec<_> = (0..THREADS).map(|_| Arc::clone(&gi)).collect();

    // Each client allocates and later retires what it got; the retirements
    // of the even clients come late, so fresh and reused slots mix.
    let mut pending = Vec::new();
    for (k, client) in clients.iter().enumerate() {
        let idx = client.lock().unwrap().next_index();
        if k % 2 == 0 {
            pending.push(idx);
        } else {
            assert_eq!(client.lock().unwrap().delete_index(idx), Ok(()));
        }
    }
    for idx in pending {
        assert_eq!(gi.lock().unwrap().delete_index(idx), Ok(()));
    }

    // Every slot handed out fresh is back in the retired list once, so the
    // next allocations until a fresh slot appears cover 0..n exactly.
    let mut state = gi.lock().unwrap();
    let mut slots: Vec<u64> = Vec::new();
    loop {
        let idx = state.next_index();
        if idx.get_generation() == 0 {
            assert_eq!(idx.get_index(), slots.len() as u64);
            break;
        }
        slots.push(idx.get_index());
    }
    slots.sort();
    let expected: Vec<u64> = (0..slots.len() as u64).collect();
    assert_eq!(slots, expected);
    assert_eq!(slots.len(), (THREADS / 2 + 1) as usize);
}
