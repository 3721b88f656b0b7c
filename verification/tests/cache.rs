use ilyvion_util::cache::{Cache, KeyedCache};
use std::cell::Cell;

#[test]
fn cache_value_is_only_calculated_once() {
    let mut counter = 0;
    let mut sut = Cache::new(|| {
        counter += 1;
    });

    sut.value_mut();
    sut.value_mut();

    assert_eq!(counter, 1);
}

#[test]
fn cache_value_is_correct() {
    let mut sut = Cache::new(|| 42);
    assert_eq!(42, *sut.value_mut());
}

#[test]
fn cache_value_is_not_available_before_access() {
    let sut = Cache::new(|| 42);

    assert_eq!(None, sut.value());
}

#[test]
fn cache_value_is_available_after_first_access() {
    let mut sut = Cache::new(|| 42);

    sut.value_mut();

    assert_eq!(Some(&42), sut.value());
}

#[test]
fn cache_mut() {
    let mut sut = Cache::new(|| 42);
    let val = sut.value_mut();
    assert_eq!(&mut 42, val);

    *val = 5;

    assert_eq!(5, *sut.value_mut());
}

#[test]
fn keyed_cache_value_is_only_calculated_once() {
    let counter = Cell::new(0);
    let mut sut = KeyedCache::new(|x: &i32| {
        counter.set(counter.get() + 1);
        x + 5
    });

    sut.value_mut(5);
    sut.value_mut(5);
    sut.value_mut(10);
    sut.value_mut(10);

    assert_eq!(counter.get(), 2);
}

#[test]
fn keyed_cache_value_is_correct() {
    let mut sut = KeyedCache::new(|w: &String| {
        let mut result = String::from("Hello ");
        result.push_str(w);
        result
    });
    assert_eq!("Hello World", sut.value_mut(String::from("World")));
}

#[test]
fn keyed_cache_value_is_not_available_before_access() {
    let sut = KeyedCache::new(|_: &i32| 42);

    assert_eq!(None, sut.value(&69));
}

#[test]
fn keyed_cache_value_is_available_after_first_access() {
    let mut sut = KeyedCache::new(|k: &i32| *k + 42);

    sut.value_mut(69);

    assert_eq!(Some(&111), sut.value(&69));
}

#[test]
fn cache_full_scenario() {
    let mut sut = Cache::new(|| 42);
    assert_eq!(None, sut.value());
    let val = sut.value_mut();
    assert_eq!(&mut 42, val);
    *val = 5;
    assert_eq!(&mut 5, sut.value_mut());
    assert_eq!(Some(&5), sut.value());
}

#[test]
fn keyed_cache_full_scenario() {
    let counter = Cell::new(0);
    let mut sut = KeyedCache::new(|k: &i32| {
        counter.set(counter.get() + 1);
        k + 5
    });
    assert_eq!(10, *sut.value_mut(5));
    assert_eq!(10, *sut.value_mut(5));
    assert_eq!(15, *sut.value_mut(10));
    assert_eq!(counter.get(), 2);
}

#[test]
fn keyed_cache_mutation_persists() {
    let mut sut = KeyedCache::new(|k: &i32| k * 2);
    let v = sut.value_mut(3);
    assert_eq!(6, *v);
    *v = 100;
    assert_eq!(100, *sut.value_mut(3));
    assert_eq!(Some(&100), sut.value(&3));
}

#[test]
fn keyed_cache_string_keyed_scenario() {
    let mut sut = KeyedCache::new(|w: &String| "Hello ".to_owned() + w);
    assert_eq!("Hello World", sut.value_mut(String::from("World")));
    assert_eq!(Some(&String::from("Hello World")), sut.value(&String::from("World")));
    assert_eq!(None, sut.value(&String::from("Moon")));
}
