use mangetsu::download::{Progress, Transfer};

fn ratio(p: &Progress) -> f64 {
    p.numerator() as f64 / p.denominator() as f64
}

#[test]
fn progress_starts_at_nothing() {
    let p = Progress::new();
    assert_eq!(p.numerator(), 0);
    assert_eq!(p.denominator(), 1);
    assert!(!p.is_complete());
}

#[test]
fn progress_of_page_is_the_exact_fraction() {
    let p = Progress::of_page(1, 4, 50, 200).unwrap();
    assert_eq!(p.numerator(), 1 * 200 + 50);
    assert_eq!(p.denominator(), 4 * 200);
    assert_eq!(ratio(&p), 0.3125);
    let done = Progress::of_page(3, 4, 200, 200).unwrap();
    assert!(done.is_complete());
    assert_eq!(ratio(&done), 1.0);
    let start = Progress::of_page(0, 4, 0, 200).unwrap();
    assert_eq!(ratio(&start), 0.0);
}

#[test]
fn progress_of_page_is_undefined_outside_the_chapter() {
    assert!(Progress::of_page(0, 0, 0, 10).is_none());
    assert!(Progress::of_page(4, 4, 0, 10).is_none());
    assert!(Progress::of_page(0, 4, 0, 0).is_none());
    assert!(Progress::of_page(0, 4, 11, 10).is_none());
}

#[test]
fn progress_of_page_holds_the_largest_inputs() {
    let p = Progress::of_page(usize::MAX - 1, usize::MAX, u64::MAX, u64::MAX).unwrap();
    assert!(p.is_complete());
    assert_eq!(p.denominator(), (usize::MAX as u128) * (u64::MAX as u128));
}

#[test]
fn progress_from_parts_takes_proper_fractions_only() {
    let p = Progress::from_parts(1, 2).unwrap();
    assert_eq!((p.numerator(), p.denominator()), (1, 2));
    assert!(Progress::from_parts(3, 2).is_none());
    assert!(Progress::from_parts(0, 0).is_none());
    assert!(Progress::from_parts(2, 2).unwrap().is_complete());
}

#[test]
fn progress_never_goes_back_and_stays_within_bounds() {
    let lengths: [u64; 3] = [10, 1000, 7];
    let mut last = 0.0;
    for (page, length) in lengths.iter().enumerate() {
        let mut received = 0;
        while received <= *length {
            let p = Progress::of_page(page, lengths.len(), received, *length).unwrap();
            let now = ratio(&p);
            assert!(now >= last);
            assert!((0.0..=1.0).contains(&now));
            last = now;
            received += 1;
        }
    }
    assert_eq!(last, 1.0);
}

#[test]
fn transfer_reports_progress_after_each_piece() {
    let mut transfer = Transfer::new(2);
    assert_eq!(transfer.page_index(), None);
    assert!(transfer.receive(5).is_none());
    assert!(transfer.begin_page(Some(100)));
    assert_eq!(transfer.page_index(), Some(0));
    let p = transfer.receive(50).unwrap();
    assert_eq!((p.numerator(), p.denominator()), (50, 200));
    let p = transfer.receive(50).unwrap();
    assert_eq!((p.numerator(), p.denominator()), (100, 200));
    assert!(transfer.begin_page(Some(10)));
    assert_eq!(transfer.page_index(), Some(1));
    let p = transfer.receive(5).unwrap();
    assert_eq!((p.numerator(), p.denominator()), (15, 20));
    let p = transfer.receive(5).unwrap();
    assert!(p.is_complete());
    assert!(!transfer.begin_page(Some(10)));
    assert_eq!(transfer.page_index(), Some(1));
}

#[test]
fn transfer_reports_nothing_without_a_length_or_beyond_it() {
    let mut transfer = Transfer::new(3);
    assert!(transfer.begin_page(None));
    assert!(transfer.receive(10).is_none());
    assert!(transfer.begin_page(Some(0)));
    assert!(transfer.receive(10).is_none());
    assert!(transfer.begin_page(Some(4)));
    assert!(transfer.receive(3).is_some());
    assert!(transfer.receive(3).is_none());
    assert!(transfer.receive(usize::MAX).is_none());
    assert!(transfer.receive(usize::MAX).is_none());
}

#[test]
fn transfer_of_no_pages_begins_none() {
    let mut transfer = Transfer::new(0);
    assert!(!transfer.begin_page(Some(1)));
    assert!(transfer.receive(1).is_none());
}
