use ilyvion_util::ownership::{Borrowned, BorrownedBox, Ob, OBox};

#[test]
fn borrowned_into_owned_gives_owned_when_owned() {
    let hw = "Hello World".to_string();
    let ob = Borrowned::Owned(hw.clone());
    let hw2 = ob.try_into_owned();

    assert_eq!(hw2, Ok(hw));
}

#[test]
fn borrowned_into_owned_gives_self_when_not_owned() {
    let mut hw = "Hello World".to_string();
    let ob = Borrowned::Borrowed(&mut hw);
    let hw2 = ob.try_into_owned();

    assert!(hw2.is_err());
}

#[test]
fn borrowned_into_borrowed_gives_borrowed_when_borrowed() {
    let mut hw = "Hello World".to_string();
    let ob = Borrowned::Borrowed(&mut hw);
    let hw2 = ob.try_into_borrowed();

    assert!(hw2.is_ok());
}

#[test]
fn borrowned_into_borrowed_gives_self_when_not_borrowed() {
    let hw = "Hello World".to_string();
    let ob = Borrowned::Owned(hw);
    let hw2 = ob.try_into_borrowed();

    assert!(hw2.is_err());
}

#[test]
fn borrowned_box_into_owned_gives_owned_when_owned() {
    let hw = "Hello World".to_string();
    let ob = BorrownedBox::Owned(Box::new(hw.clone()));
    let hw2 = ob.try_into_box();

    assert_eq!(hw2, Ok(Box::new(hw)));
}

#[test]
fn borrowned_box_into_owned_gives_self_when_not_owned() {
    let mut hw = "Hello World".to_string();
    let ob = BorrownedBox::Borrowed(&mut hw);
    let hw2 = ob.try_into_box();

    assert!(hw2.is_err());
}

#[test]
fn borrowned_box_into_borrowed_gives_borrowed_when_borrowed() {
    let mut hw = "Hello World".to_string();
    let ob = BorrownedBox::Borrowed(&mut hw);
    let hw2 = ob.try_into_borrowed();

    assert!(hw2.is_ok());
}

#[test]
fn borrowned_box_into_borrowed_gives_self_when_not_borrowed() {
    let hw = "Hello World".to_string();
    let ob = BorrownedBox::Owned(Box::new(hw));
    let hw2 = ob.try_into_borrowed();

    assert!(hw2.is_err());
}

#[test]
fn borrowned_writes_through_borrow_reach_the_original() {
    let mut value = 7u64;
    {
        let b = Borrowned::Borrowed(&mut value);
        match b.try_into_borrowed() {
            Ok(inner) => *inner = 9,
            Err(_) => unreachable!(),
        }
    }
    assert_eq!(value, 9);
}

#[test]
fn borrowned_compares_and_clones_by_inner_value() {
    let mut x = 3i32;
    let borrowed = Borrowned::Borrowed(&mut x);
    let owned = Borrowned::Owned(3i32);
    assert_eq!(borrowed, owned);
    assert!(Borrowned::Owned(2i32) < owned);

    let cloned = borrowed.clone();
    assert_eq!(cloned.try_into_owned(), Ok(3));
}

#[test]
fn borrowned_default_and_from() {
    let d: Borrowned<'_, u32> = Borrowned::default();
    assert_eq!(d.try_into_owned(), Ok(0));

    let f: Borrowned<'_, u32> = 7u32.into();
    assert_eq!(f.try_into_owned(), Ok(7));

    let mut v = 5u32;
    let g: Borrowned<'_, u32> = Borrowned::from(&mut v);
    assert!(g.try_into_owned().is_err());
}

#[test]
fn borrowned_inner_accessors() {
    let mut b = Borrowned::Owned(10u8);
    assert_eq!(*b.inner_ref(), 10);
    *b.inner_mut() = 11;
    assert_eq!(*b.inner_ref(), 11);
}

#[test]
fn borrowned_box_compares_and_clones_by_inner_value() {
    let mut x = 3i32;
    let borrowed = BorrownedBox::Borrowed(&mut x);
    let owned = BorrownedBox::Owned(Box::new(3i32));
    assert_eq!(borrowed, owned);
    assert!(BorrownedBox::Owned(Box::new(2i32)) < owned);

    let cloned = borrowed.clone();
    assert_eq!(cloned.try_into_box(), Ok(Box::new(3)));

    let d: BorrownedBox<'_, u32> = BorrownedBox::default();
    assert_eq!(*d.inner_ref(), 0);
}

#[test]
fn ob_extracts_what_it_holds() {
    let o = Ob::<u8>::Owned(1);
    assert!(matches!(o.into_owned(), Ok(1)));

    let mut x = 2u8;
    let b = Ob::Borrowed(&mut x);
    assert!(b.into_owned().is_err());

    let o2 = Ob::<u8>::Owned(1);
    assert!(o2.into_borrowed().is_err());

    let mut y = 3u8;
    let b2 = Ob::Borrowed(&mut y);
    match b2.into_borrowed() {
        Ok(inner) => *inner = 4,
        Err(_) => unreachable!(),
    }
    assert_eq!(y, 4);
}

#[test]
fn ob_inner_accessors() {
    let mut o = Ob::<u8>::Owned(1);
    assert_eq!(*o.inner_ref(), 1);
    *o.inner_mut() = 2;
    assert_eq!(*o.inner_ref(), 2);
}

#[test]
fn obox_extracts_what_it_holds() {
    let o = OBox::<u8>::Owned(Box::new(1));
    assert!(matches!(o.into_box(), Ok(b) if *b == 1));

    let mut x = 2u8;
    let b = OBox::Borrowed(&mut x);
    assert!(b.into_box().is_err());

    let o2 = OBox::<u8>::Owned(Box::new(1));
    assert!(o2.into_borrowed().is_err());

    let mut y = 3u8;
    let b2 = OBox::Borrowed(&mut y);
    match b2.into_borrowed() {
        Ok(inner) => *inner = 4,
        Err(_) => unreachable!(),
    }
    assert_eq!(y, 4);
}

#[test]
fn obox_inner_accessors() {
    let mut o = OBox::<u8>::Owned(Box::new(1));
    assert_eq!(*o.inner_ref(), 1);
    *o.inner_mut() = 2;
    assert_eq!(*o.inner_ref(), 2);
}
