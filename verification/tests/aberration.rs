use outcome::Aberration;

#[test]
fn aberration_tag_tests_are_exclusive() {
    let x: Aberration<u32, i32> = Aberration::Mistake(42);
    assert!(x.is_mistake());
    assert!(!x.is_failure());

    let x: Aberration<u32, i32> = Aberration::Failure(47);
    assert!(!x.is_mistake());
    assert!(x.is_failure());
}

#[test]
fn aberration_as_ref_preserves_tag_and_payload() {
    let x: Aberration<u32, &str> = Aberration::Mistake(42);
    assert_eq!(x.as_ref(), Aberration::Mistake(&42));

    let x: Aberration<&str, u32> = Aberration::Failure(47);
    assert_eq!(x.as_ref(), Aberration::Failure(&47));
}

fn mutate(x: &mut Aberration<u32, i32>) {
    match x.as_mut() {
        Aberration::Mistake(m) => *m = 42,
        Aberration::Failure(f) => *f = 47,
    }
}

#[test]
fn aberration_as_mut_writes_into_the_original() {
    let mut x: Aberration<u32, i32> = Aberration::Mistake(1);
    mutate(&mut x);
    assert_eq!(x.unwrap_mistake(), 42);

    let mut x: Aberration<u32, i32> = Aberration::Failure(1);
    mutate(&mut x);
    assert_eq!(x.unwrap_failure(), 47);
}

#[test]
fn aberration_extraction_inverts_construction() {
    let x: Aberration<u32, i32> = Aberration::Failure(42);
    assert_eq!(x.mistake(), None);
    assert_eq!(x.failure(), Some(42));

    let x: Aberration<u32, i32> = Aberration::Mistake(42);
    assert_eq!(x.mistake(), Some(42));
    assert_eq!(x.failure(), None);
}

#[test]
fn aberration_maps_touch_one_slot() {
    let x: Aberration<&str, &str> = Aberration::Mistake("foo");
    assert_eq!(x.map_mistake(|v| v.len()), Aberration::Mistake(3));

    let x: Aberration<&str, &str> = Aberration::Failure("bar");
    assert_eq!(x.map_mistake(|v| v.len()), Aberration::Failure("bar"));

    let x: Aberration<&str, &str> = Aberration::Failure("bar");
    assert_eq!(x.map_failure(|v| v.len()), Aberration::Failure(3));

    let x: Aberration<&str, &str> = Aberration::Mistake("foo");
    assert_eq!(x.map_failure(|v| v.len()), Aberration::Mistake("foo"));
}

#[test]
fn aberration_unwraps_return_the_matching_payload() {
    let x: Aberration<&str, i32> = Aberration::Mistake("try again!");
    assert_eq!(x.unwrap_mistake(), "try again!");

    let x: Aberration<i32, &str> = Aberration::Failure("error!");
    assert_eq!(x.unwrap_failure(), "error!");
}
