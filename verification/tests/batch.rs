use linehaul::batch::chunks;

#[test]
fn chunks_of_a_list() {
    let items: Vec<u32> = (0..10).collect();
    assert_eq!(chunks(items.clone(), 3), vec![vec![0, 1, 2], vec![3, 4, 5], vec![6, 7, 8], vec![9]]);
    assert_eq!(chunks(items.clone(), 5), vec![vec![0, 1, 2, 3, 4], vec![5, 6, 7, 8, 9]]);
    assert_eq!(chunks(items.clone(), 10), vec![items.clone()]);
    assert_eq!(chunks(items.clone(), 11), vec![items.clone()]);
    assert_eq!(chunks(items.clone(), 1).len(), 10);
    assert_eq!(chunks(Vec::<u32>::new(), 4), Vec::<Vec<u32>>::new());
}

#[test]
fn chunks_keep_every_item_in_order() {
    for n in 0usize..40 {
        for size in 1usize..9 {
            let items: Vec<usize> = (0..n).collect();
            let cut = chunks(items.clone(), size);
            assert_eq!(cut.len(), (n + size - 1) / size);
            assert!(cut.iter().all(|c| !c.is_empty() && c.len() <= size));
            assert!(cut.iter().rev().skip(1).all(|c| c.len() == size));
            assert_eq!(cut.concat(), items);
        }
    }
}
