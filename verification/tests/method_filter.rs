use nexus::http_types::Method;
use nexus::router::method_filter::MethodFilter;

fn standard() -> Vec<Method> {
    vec![
        Method::Connect,
        Method::Delete,
        Method::Get,
        Method::Head,
        Method::Options,
        Method::Patch,
        Method::Post,
        Method::Put,
        Method::Trace,
    ]
}

#[test]
fn each_flag_has_its_own_bit() {
    assert_eq!(MethodFilter::connect().bits(), 0b000000001);
    assert_eq!(MethodFilter::delete().bits(), 0b000000010);
    assert_eq!(MethodFilter::get().bits(), 0b000000100);
    assert_eq!(MethodFilter::head().bits(), 0b000001000);
    assert_eq!(MethodFilter::options().bits(), 0b000010000);
    assert_eq!(MethodFilter::patch().bits(), 0b000100000);
    assert_eq!(MethodFilter::post().bits(), 0b001000000);
    assert_eq!(MethodFilter::put().bits(), 0b010000000);
    assert_eq!(MethodFilter::trace().bits(), 0b100000000);
    assert_eq!(MethodFilter::all().bits(), 0b111111111);
    assert_eq!(MethodFilter::empty().bits(), 0);
}

#[test]
fn single_flag_matches_only_its_method() {
    let filters = vec![
        MethodFilter::connect(),
        MethodFilter::delete(),
        MethodFilter::get(),
        MethodFilter::head(),
        MethodFilter::options(),
        MethodFilter::patch(),
        MethodFilter::post(),
        MethodFilter::put(),
        MethodFilter::trace(),
    ];
    let methods = standard();
    for (i, filter) in filters.iter().enumerate() {
        for (j, method) in methods.iter().enumerate() {
            assert_eq!(filter.matches(method), i == j);
        }
    }
}

#[test]
fn union_accepts_either_method() {
    let filter = MethodFilter::get().union(MethodFilter::head());
    assert_eq!(filter.bits(), 0b000001100);
    assert!(filter.matches(&Method::Get));
    assert!(filter.matches(&Method::Head));
    assert!(!filter.matches(&Method::Post));
    assert!(!filter.matches(&Method::Delete));
    assert!(filter.contains(MethodFilter::get()));
    assert!(!filter.contains(MethodFilter::post()));
}

#[test]
fn all_matches_every_standard_method() {
    let filter = MethodFilter::all();
    for method in standard() {
        assert!(filter.matches(&method));
    }
}

#[test]
fn empty_matches_nothing() {
    let filter = MethodFilter::empty();
    for method in standard() {
        assert!(!filter.matches(&method));
    }
}

#[test]
fn unknown_method_never_matches() {
    assert!(!MethodFilter::all().matches(&Method::Extension));
    assert!(!MethodFilter::get().matches(&Method::Extension));
    assert!(!MethodFilter::empty().matches(&Method::Extension));
}

#[test]
fn matching_is_repeatable() {
    let filter = MethodFilter::post().union(MethodFilter::put());
    let other = MethodFilter::get();
    let first = filter.matches(&Method::Put);
    let _ = other.matches(&Method::Put);
    let _ = filter.union(other);
    let second = filter.matches(&Method::Put);
    let third = filter.matches(&Method::Put);
    assert!(first);
    assert_eq!(first, second);
    assert_eq!(second, third);
    assert_eq!(filter.matches(&Method::Get), filter.matches(&Method::Get));
    assert!(!filter.matches(&Method::Get));
}

#[test]
fn bit_or_is_union() {
    let filter = MethodFilter::get() | MethodFilter::head() | MethodFilter::trace();
    assert_eq!(filter.bits(), 0b100001100);
    assert!(filter.matches(&Method::Get));
    assert!(filter.matches(&Method::Head));
    assert!(filter.matches(&Method::Trace));
    assert!(!filter.matches(&Method::Put));
    assert_eq!(filter, MethodFilter::get().union(MethodFilter::head()).union(MethodFilter::trace()));
    assert_eq!(MethodFilter::post() | MethodFilter::post(), MethodFilter::post());
    assert_eq!(MethodFilter::post() | MethodFilter::empty(), MethodFilter::post());
}
