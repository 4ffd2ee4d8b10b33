use outcome::Aberration;
use outcome::Concern;
use outcome::Outcome;
use outcome::Outcome::{Failure, Mistake, Success};

#[test]
fn filter_map_with() {
    let failures: Vec<Outcome<(), (), String>> = vec![
        Failure("There is an error".into()),
        Mistake(()),
        Failure("There is a second error".into()),
        Success(()),
        Failure("There is a final error".into()),
        Mistake(()),
        Success(()),
    ];

    let filtered: Vec<&str> = failures
        .iter()
        .map(Outcome::as_ref)
        .filter_map(Outcome::failure)
        .map(String::as_str)
        .collect();

    assert_eq!(filtered.len(), 3);
    assert_eq!(failures[0].as_ref().unwrap_failure().as_str(), filtered[0]);
    assert_eq!(failures[2].as_ref().unwrap_failure().as_str(), filtered[1]);
    assert_eq!(failures[4].as_ref().unwrap_failure().as_str(), filtered[2]);
}

#[test]
fn tag_tests_are_exclusive() {
    let x: Outcome<i32, (), &str> = Success(-1);
    assert!(x.is_success());
    assert!(!x.is_mistake());
    assert!(!x.is_failure());
    assert!(!x.is_error());

    let x: Outcome<(), i32, &str> = Mistake(-1);
    assert!(!x.is_success());
    assert!(x.is_mistake());
    assert!(!x.is_failure());
    assert!(x.is_error());

    let x: Outcome<i32, (), &str> = Failure("some failure message");
    assert!(!x.is_success());
    assert!(!x.is_mistake());
    assert!(x.is_failure());
    assert!(x.is_error());
}

#[test]
fn extraction_inverts_construction() {
    let outcome: Outcome<i32, f32, &str> = Success(4);
    assert_eq!(outcome.success(), Some(4));
    assert_eq!(outcome.mistake(), None);
    assert_eq!(outcome.failure(), None);

    let outcome: Outcome<i32, f32, &str> = Mistake(0.0);
    assert_eq!(outcome.success(), None);
    assert_eq!(outcome.mistake(), Some(0.0));
    assert_eq!(outcome.failure(), None);

    let outcome: Outcome<i32, f32, &str> = Failure("failure");
    assert_eq!(outcome.success(), None);
    assert_eq!(outcome.mistake(), None);
    assert_eq!(outcome.failure(), Some("failure"));
}

#[test]
fn as_ref_preserves_tag_and_payload() {
    let x: Outcome<u32, f32, &str> = Success(2);
    assert_eq!(x.as_ref(), Success(&2));
    assert_eq!(x.as_ref().success(), Some(&2));

    let x: Outcome<i32, i32, i32> = Mistake(47);
    assert_eq!(x.as_ref(), Mistake(&47));
    assert_eq!(x.as_ref().mistake(), Some(&47));

    let x: Outcome<i32, i32, i32> = Failure(42);
    assert_eq!(x.as_ref(), Failure(&42));
    assert_eq!(x.as_ref().failure(), Some(&42));
}

fn mutate(o: &mut Outcome<i32, i32, i32>) {
    match o.as_mut() {
        Success(s) => *s = 47,
        Mistake(m) => *m = 19,
        Failure(f) => *f = 0,
    }
}

#[test]
fn as_mut_writes_into_the_original() {
    let mut x: Outcome<i32, i32, i32> = Success(2);
    mutate(&mut x);
    assert_eq!(x.unwrap(), 47);

    let mut x: Outcome<i32, i32, i32> = Mistake(47);
    mutate(&mut x);
    assert_eq!(x.unwrap_mistake(), 19);

    let mut x: Outcome<i32, i32, i32> = Failure(47);
    mutate(&mut x);
    assert_eq!(x.unwrap_failure(), 0);
}

fn square(x: u32) -> Outcome<u32, u32, u32> {
    Success(x * x)
}

fn mistake(x: u32) -> Outcome<u32, u32, u32> {
    Mistake(x)
}

fn failure(_x: u32) -> Outcome<u32, u32, u32> {
    Failure(0)
}

#[test]
fn and_then_chains_on_success() {
    assert_eq!(Success(2).and_then(square).and_then(square), Success(16));
    assert_eq!(Success(2).and_then(square).and_then(failure), Failure(0));
    assert_eq!(Success(2).and_then(square).and_then(mistake), Mistake(4));
    assert_eq!(Failure(2).and_then(square).and_then(square), Failure(2));
}

#[test]
fn and_then_short_circuits_without_calling() {
    let mut calls: u32 = 0;
    let x: Outcome<u32, &str, &str> = Mistake("try again");
    let r = x.and_then(|v| {
        calls += 1;
        Success(v)
    });
    assert_eq!(r, Mistake("try again"));
    assert_eq!(calls, 0);

    let x: Outcome<u32, &str, &str> = Failure("give up");
    let r = x.and_then(|v| {
        calls += 1;
        Success(v)
    });
    assert_eq!(r, Failure("give up"));
    assert_eq!(calls, 0);

    let x: Outcome<u32, &str, &str> = Success(3);
    let r = x.and_then(|v| {
        calls += 1;
        Success(v + 1)
    });
    assert_eq!(r, Success(4));
    assert_eq!(calls, 1);
}

#[test]
fn map_identity_returns_the_original() {
    let x: Outcome<u32, &str, &str> = Success(7);
    assert_eq!(x.map(|v| v), Success(7));
    let x: Outcome<u32, &str, &str> = Mistake("m");
    assert_eq!(x.map(|v| v), Mistake("m"));
    let x: Outcome<u32, &str, &str> = Failure("f");
    assert_eq!(x.map(|v| v), Failure("f"));
}

#[test]
fn map_composes() {
    let x: Outcome<u32, &str, &str> = Success(3);
    let composed = x.map(|v| v + 1).map(|v| v * 2);
    let at_once: Outcome<u32, &str, &str> = Success(3).map(|v| (v + 1) * 2);
    assert_eq!(composed, at_once);
    assert_eq!(composed, Success(8));
}

#[test]
fn map_or_folds_eagerly() {
    let x: Outcome<&str, u32, u32> = Success("foo");
    assert_eq!(x.map_or(42, |v| v.len()), 3);
    let x: Outcome<&str, u32, u32> = Mistake(7);
    assert_eq!(x.map_or(42, |v| v.len()), 42);
}

#[test]
fn map_or_else_folds_both_sides() {
    let x: Outcome<&str, u32, u32> = Success("foo");
    assert_eq!(x.map_or_else(|_| 0, |v| v.len()), 3);
    let x: Outcome<&str, u32, u32> = Mistake(21);
    assert_eq!(
        x.map_or_else(
            |e| match e {
                Aberration::Mistake(m) => (m * 2) as usize,
                Aberration::Failure(f) => f as usize,
            },
            |v| v.len(),
        ),
        42
    );
}

#[test]
fn map_mistake_and_map_failure_touch_one_slot() {
    let x: Outcome<u32, &str, &str> = Mistake("foo");
    assert_eq!(x.map_mistake(|v| v.len()), Mistake(3));
    let x: Outcome<u32, &str, &str> = Success(2);
    assert_eq!(x.map_mistake(|v| v.len()), Success(2));
    let x: Outcome<u32, &str, &str> = Failure("bar");
    assert_eq!(x.map_mistake(|v| v.len()), Failure("bar"));

    let x: Outcome<u32, &str, &str> = Failure("bar");
    assert_eq!(x.map_failure(|v| v.len()), Failure(3));
    let x: Outcome<u32, &str, &str> = Mistake("foo");
    assert_eq!(x.map_failure(|v| v.len()), Mistake("foo"));
}

#[test]
fn unwrap_returns_the_success_value() {
    let x: Outcome<u32, &str, &str> = Success(2);
    assert_eq!(x.unwrap(), 2);
}

#[test]
fn unwrap_fallbacks_are_total() {
    let x: Outcome<u32, &str, &str> = Mistake("try again");
    assert_eq!(x.unwrap_or(42), 42);
    let x: Outcome<u32, &str, &str> = Success(2);
    assert_eq!(x.unwrap_or(42), 2);

    let x: Outcome<u32, &str, &str> = Failure("oops");
    assert_eq!(
        x.unwrap_or_else(|e| match e {
            Aberration::Mistake(m) => m.len() as u32,
            Aberration::Failure(f) => f.len() as u32,
        }),
        4
    );

    let x: Outcome<u32, &str, &str> = Mistake("nope");
    assert_eq!(x.unwrap_or_default(), 0);
    let x: Outcome<u32, &str, &str> = Success(9);
    assert_eq!(x.unwrap_or_default(), 9);
}

#[test]
fn unwrap_mistake_and_failure_and_error() {
    let x: Outcome<u32, &str, f32> = Mistake("try again!");
    assert_eq!(x.unwrap_mistake(), "try again!");

    let x: Outcome<u32, f32, &str> = Failure("failure!");
    assert_eq!(x.unwrap_failure(), "failure!");

    let x: Outcome<u32, &str, &str> = Failure("failure!");
    let ab = x.unwrap_error();
    match ab {
        Aberration::Mistake(m) => assert_eq!("mistake!", m),
        Aberration::Failure(f) => assert_eq!("failure!", f),
    };
}

#[test]
fn acclimate_pulls_the_failure_out() {
    let x: Outcome<u32, &str, &str> = Success(2);
    assert_eq!(x.acclimate(), Ok(Concern::Success(2)));
    let x: Outcome<u32, &str, &str> = Mistake("m");
    assert_eq!(x.acclimate(), Ok(Concern::Mistake("m")));
    let x: Outcome<u32, &str, &str> = Failure("f");
    assert_eq!(x.acclimate(), Err("f"));
}

#[test]
fn transpose_swaps_the_layers() {
    let x: Outcome<Option<i32>, u32, u32> = Success(Some(5));
    assert_eq!(x.transpose(), Some(Success(5)));
    let x: Outcome<Option<i32>, u32, u32> = Success(None);
    assert_eq!(x.transpose(), None);
    let x: Outcome<Option<i32>, u32, u32> = Mistake(47);
    assert_eq!(x.transpose(), Some(Mistake(47)));
    let x: Outcome<Option<i32>, u32, u32> = Failure(47);
    assert_eq!(x.transpose(), Some(Failure(47)));
}

#[test]
fn flatten_removes_exactly_one_layer() {
    let x: Outcome<Outcome<&'static str, u32, u32>, u32, u32> = Success(Success("hello"));
    assert_eq!(Success("hello"), x.flatten());

    let x: Outcome<Outcome<&'static str, u32, u32>, u32, u32> = Success(Mistake(47));
    assert_eq!(Mistake(47), x.flatten());

    let x: Outcome<Outcome<&'static str, u32, u32>, u32, u32> = Success(Failure(47));
    assert_eq!(Failure(47), x.flatten());

    let x: Outcome<Outcome<&'static str, u32, u32>, u32, u32> = Mistake(47);
    assert_eq!(Mistake(47), x.flatten());

    let x: Outcome<Outcome<&'static str, u32, u32>, u32, u32> = Failure(47);
    assert_eq!(Failure(47), x.flatten());

    type Nested<T> = Outcome<Outcome<Outcome<T, u32, u32>, u32, u32>, u32, u32>;
    let x: Nested<&'static str> = Success(Success(Success("hello")));
    assert_eq!(Success(Success("hello")), x.flatten());
    assert_eq!(Success("hello"), x.flatten().flatten());
}

#[test]
fn contains_checks_the_matching_slot() {
    let x: Outcome<u32, f32, &str> = Success(47);
    assert!(x.contains(&47));
    assert!(!x.contains(&42));
    let x: Outcome<u32, f32, &str> = Mistake(0.0f32);
    assert!(!x.contains(&47));

    let x: Outcome<u32, &str, i32> = Mistake("Some mistake message");
    assert!(x.contains_mistake(&"Some mistake message"));
    let x: Outcome<u32, &str, i32> = Mistake("Some other mistake message");
    assert!(!x.contains_mistake(&"Some mistake message"));
    let x: Outcome<u32, &str, i32> = Success(47);
    assert!(!x.contains_mistake(&"Some mistake message"));

    let x: Outcome<u32, i32, &str> = Failure("Some error message");
    assert!(x.contains_failure(&"Some error message"));
    let x: Outcome<u32, u32, &str> = Failure("Some other error message");
    assert!(!x.contains_failure(&"Some error message"));
    let x: Outcome<u32, i32, &str> = Mistake(47);
    assert!(!x.contains_failure(&"Some error message"));
}

#[test]
fn as_deref_reaches_through_the_success() {
    let x: Outcome<String, u32, u32> = Success("hello".to_string());
    let y: Outcome<&str, &u32, &u32> = Success("hello");
    assert_eq!(x.as_deref(), y);

    let x: Outcome<String, u32, u32> = Mistake(7);
    assert_eq!(x.as_deref(), Mistake(&7));
}

#[test]
fn as_deref_mut_reaches_through_the_success() {
    let mut s = "HELLO".to_string();
    let mut x: Outcome<String, u32, u32> = Success("hello".to_string());
    let y: Outcome<&mut str, &mut u32, &mut u32> = Success(&mut s);
    assert_eq!(
        x.as_deref_mut().map(|v| {
            v.make_ascii_uppercase();
            v
        }),
        y
    );
}
